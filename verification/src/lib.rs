//! Verified core of the firmware of the BindKey slave board: the SPI link
//! protocol spoken with the master board, and the bookkeeping of the USB
//! mass-storage drive behind it.

pub mod esp_err;
pub mod spi_link;
pub mod usb_mass_storage;
