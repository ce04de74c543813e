# bindkey_esp

Firmware of the BindKey slave board (ESP32-S3 #2): it answers block
requests that the master board sends over SPI3 and serves them from a USB
mass-storage drive.

- `src/` is the verified library (Verus):
  - `spi_link/protocol.rs`: the wire format (16-byte header, commands,
    CRC-32, capacity payload) with its round-trip laws;
  - `spi_link/chunk.rs`: splitting a block range into frame-sized chunks;
  - `spi_link/transport.rs`: the slave's service loop as a state machine
    (`SpiLink::step`), with the laws of the framing;
  - `usb_mass_storage/`: the driver's bookkeeping (connection events, open
    attempts, watchdog) and the checks of block transfers.
- `app/` is the firmware around it: ESP-IDF calls for SPI, GPIO, the USB
  host stack and FreeRTOS, which perform the actions the library asks for.
- `tests/` runs the library on concrete values.
