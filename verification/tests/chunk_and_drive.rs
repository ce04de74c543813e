use bindkey_esp::esp_err::{
    ESP_ERR_INVALID_ARG, ESP_ERR_INVALID_SIZE, ESP_ERR_INVALID_STATE, ESP_FAIL, ESP_OK,
};
use bindkey_esp::spi_link::chunk::compute_chunk;
use bindkey_esp::usb_mass_storage::block_device::{BlockDevStatus, CapacityReply, ScsiTransfer};
use bindkey_esp::usb_mass_storage::driver::{
    MscEvent, OpenStep, Teardown, UsbMassStorage, RETRY_COUNT,
};

fn open_drive(block_size: u32, block_count: u32) -> UsbMassStorage {
    let mut u = UsbMassStorage::new();
    u.handle = 0x1000;
    u.block_size = block_size;
    u.block_count = block_count;
    u
}

#[test]
fn chunks_of_a_range_tile_it() {
    // 40 blocks of 512 bytes = 20480 bytes: two full chunks and a half one.
    assert_eq!(compute_chunk(512, 1000, 100, 40, 0), Ok((100, 16, 8192)));
    assert_eq!(compute_chunk(512, 1000, 100, 40, 1), Ok((116, 16, 8192)));
    assert_eq!(compute_chunk(512, 1000, 100, 40, 2), Ok((132, 8, 4096)));
    assert_eq!(compute_chunk(512, 1000, 100, 40, 3), Err(ESP_ERR_INVALID_ARG));
}

#[test]
fn chunk_with_4k_blocks() {
    assert_eq!(compute_chunk(4096, 10, 0, 3, 0), Ok((0, 2, 8192)));
    assert_eq!(compute_chunk(4096, 10, 0, 3, 1), Ok((2, 1, 4096)));
}

#[test]
fn chunk_rejects_bad_block_sizes() {
    assert_eq!(compute_chunk(0, 10, 0, 1, 0), Err(ESP_ERR_INVALID_STATE));
    assert_eq!(compute_chunk(16384, 10, 0, 1, 0), Err(ESP_ERR_INVALID_SIZE));
    assert_eq!(compute_chunk(3, 10, 0, 1, 0), Err(ESP_ERR_INVALID_STATE));
}

#[test]
fn chunk_rejects_empty_range_and_unknown_count() {
    assert_eq!(compute_chunk(512, 10, 0, 0, 0), Err(ESP_ERR_INVALID_ARG));
    assert_eq!(compute_chunk(512, 0, 0, 1, 0), Err(ESP_ERR_INVALID_STATE));
}

#[test]
fn chunk_rejects_range_past_the_drive() {
    assert_eq!(compute_chunk(512, 100, 90, 16, 0), Err(ESP_ERR_INVALID_ARG));
    assert_eq!(compute_chunk(512, 100, 84, 16, 0), Ok((84, 16, 8192)));
    assert_eq!(compute_chunk(512, u32::MAX, u32::MAX - 4, 40, 1), Err(ESP_ERR_INVALID_ARG));
}

#[test]
fn new_drive_is_empty() {
    let u = UsbMassStorage::new();
    assert_eq!(u.pending_addr, -1);
    assert_eq!(u.retries_left, 0);
    assert!(!u.has_device());
    assert!(!u.is_mounted());
    assert_eq!(u.no_device_since, None);
}

#[test]
fn connect_then_open_succeeds() {
    let mut u = UsbMassStorage::new();
    let t = u.handle_raw_event(MscEvent::Connected { addr: 1 });
    assert_eq!(t, Teardown { vfs: None, handle: None });
    assert_eq!(u.pending_addr, 1);
    assert_eq!(u.retries_left, RETRY_COUNT);
    assert_eq!(u.open_attempt(), Some(1));
    assert_eq!(u.open_result(ESP_OK, 0x2000), OpenStep::ReadCapacity { handle: 0x2000 });
    assert_eq!(u.handle, 0x2000);
    assert_eq!(u.open_attempt(), None);
    assert_eq!(
        u.capacity_result(CapacityReply { err: ESP_OK, block_size: 512, block_count: 2048 }),
        (Ok((512, 2048)), OpenStep::Idle)
    );
    assert_eq!(u.block_size, 512);
    assert_eq!(u.block_count, 2048);
}

#[test]
fn not_ready_device_is_tried_three_times() {
    let mut u = UsbMassStorage::new();
    u.handle_raw_event(MscEvent::Connected { addr: 5 });
    let mut attempts = 0;
    while let Some(addr) = u.open_attempt() {
        assert_eq!(addr, 5);
        attempts += 1;
        assert_eq!(u.open_result(ESP_ERR_INVALID_STATE, 0), OpenStep::Idle);
    }
    assert_eq!(attempts, 3);
    assert_eq!(u.pending_addr, 5);
    assert_eq!(u.retries_left, 0);
}

#[test]
fn stuck_device_gets_power_cycled() {
    let mut u = UsbMassStorage::new();
    u.handle_raw_event(MscEvent::Connected { addr: 5 });
    assert!(!u.watchdog(0));
    assert_eq!(u.no_device_since, None);
    while u.open_attempt().is_some() {
        u.open_result(ESP_ERR_INVALID_STATE, 0);
        assert!(!u.watchdog(100));
    }
    assert!(!u.watchdog(300));
    assert_eq!(u.no_device_since, Some(100));
    assert!(!u.watchdog(2099));
    assert!(u.watchdog(2100));
}

#[test]
fn capacity_failure_after_open_is_reported() {
    let mut u = UsbMassStorage::new();
    u.handle_raw_event(MscEvent::Connected { addr: 1 });
    u.open_result(ESP_OK, 0x2000);
    assert_eq!(
        u.capacity_result(CapacityReply { err: ESP_FAIL, block_size: 512, block_count: 8 }),
        (Err(ESP_FAIL), OpenStep::Idle)
    );
    assert_eq!(u.block_size, 0);
    let mut v = UsbMassStorage::new();
    v.handle_raw_event(MscEvent::Connected { addr: 1 });
    assert_eq!(v.open_result(ESP_OK, 0), OpenStep::Idle);
}

#[test]
fn fatal_open_error_ends_attempts() {
    let mut u = UsbMassStorage::new();
    u.handle_raw_event(MscEvent::Connected { addr: 2 });
    assert_eq!(u.open_result(ESP_FAIL, 0), OpenStep::Idle);
    assert_eq!(u.pending_addr, -1);
    assert_eq!(u.retries_left, 0);
    assert_eq!(u.open_attempt(), None);
}

#[test]
fn disconnect_releases_handles() {
    let mut u = open_drive(512, 10);
    u.vfs = 0x3000;
    let t = u.handle_raw_event(MscEvent::Disconnected);
    assert_eq!(t, Teardown { vfs: Some(0x3000), handle: Some(0x1000) });
    assert_eq!(u.handle, 0);
    assert_eq!(u.vfs, 0);
    assert_eq!(u.block_size, 0);
    assert_eq!(u.block_count, 0);
    assert_eq!(u.pending_addr, -1);
    let t2 = u.handle_raw_event(MscEvent::Disconnected);
    assert_eq!(t2, Teardown { vfs: None, handle: None });
}

#[test]
fn other_events_change_nothing() {
    let mut u = open_drive(512, 10);
    let t = u.handle_raw_event(MscEvent::Other(7));
    assert_eq!(t, Teardown { vfs: None, handle: None });
    assert_eq!(u.handle, 0x1000);
    assert_eq!(u.block_count, 10);
}

#[test]
fn failed_mount_closes_device() {
    let mut u = UsbMassStorage::new();
    u.handle_raw_event(MscEvent::Connected { addr: 1 });
    u.open_result(ESP_OK, 0x2000);
    assert_eq!(u.mount_result(false, 0), Some(0x2000));
    assert_eq!(u.handle, 0);
    assert_eq!(u.retries_left, -1);
    let mut v = UsbMassStorage::new();
    v.handle_raw_event(MscEvent::Connected { addr: 1 });
    v.open_result(ESP_OK, 0x2000);
    assert_eq!(v.mount_result(true, 0x4000), None);
    assert!(v.is_mounted());
}

#[test]
fn watchdog_fires_after_two_seconds_without_device() {
    let mut u = UsbMassStorage::new();
    assert!(!u.watchdog(1000));
    assert_eq!(u.no_device_since, Some(1000));
    assert!(!u.watchdog(2999));
    assert!(u.watchdog(3000));
    u.power_cycled(5000);
    assert!(!u.watchdog(6999));
    assert!(u.watchdog(7000));
}

#[test]
fn watchdog_stops_while_a_device_waits() {
    let mut u = UsbMassStorage::new();
    assert!(!u.watchdog(0));
    u.handle_raw_event(MscEvent::Connected { addr: 1 });
    assert!(!u.watchdog(10_000));
    assert_eq!(u.no_device_since, None);
}

#[test]
fn status_of_the_drive() {
    let none = UsbMassStorage::new();
    assert!(!none.unit_ready_needed());
    assert_eq!(none.bd_status(None), BlockDevStatus::NotPresent);
    let mut unknown = open_drive(0, 0);
    assert_eq!(unknown.bd_status(None), BlockDevStatus::NotReady);
    unknown.block_size = 512;
    unknown.block_count = 8;
    assert!(unknown.unit_ready_needed());
    assert_eq!(unknown.bd_status(Some(ESP_OK)), BlockDevStatus::Ready);
    assert_eq!(unknown.bd_status(Some(ESP_FAIL)), BlockDevStatus::NotReady);
    assert_eq!(BlockDevStatus::NotPresent.code(), 0);
    assert_eq!(BlockDevStatus::NotReady.code(), 1);
    assert_eq!(BlockDevStatus::Ready.code(), 2);
}

#[test]
fn refresh_capacity_errors() {
    let mut none = UsbMassStorage::new();
    assert_eq!(none.bd_refresh_capacity(None), Err(ESP_ERR_INVALID_STATE));
    let mut u = open_drive(512, 10);
    assert_eq!(
        u.bd_refresh_capacity(Some(CapacityReply { err: ESP_FAIL, block_size: 4096, block_count: 1 })),
        Err(ESP_FAIL)
    );
    assert_eq!(u.block_size, 512);
    assert_eq!(u.block_count, 10);
}

#[test]
fn block_transfer_checks() {
    let u = open_drive(512, 100);
    assert_eq!(
        u.bd_read_blocks(10, 2, 1024),
        Ok(ScsiTransfer { handle: 0x1000, lba: 10, nblocks: 2, block_size: 512 })
    );
    assert_eq!(u.bd_read_blocks(10, 0, 0), Err(ESP_ERR_INVALID_ARG));
    assert_eq!(u.bd_read_blocks(99, 2, 1024), Err(ESP_ERR_INVALID_ARG));
    assert_eq!(u.bd_read_blocks(98, 2, 1024).is_ok(), true);
    assert_eq!(u.bd_write_blocks(10, 2, 1023), Err(ESP_ERR_INVALID_ARG));
    assert_eq!(u.bd_write_blocks(u32::MAX, 2, 1024), Err(ESP_ERR_INVALID_ARG));
    let none = UsbMassStorage::new();
    assert_eq!(none.bd_read_blocks(0, 1, 512), Err(ESP_ERR_INVALID_STATE));
    let unknown = open_drive(0, 0);
    assert_eq!(unknown.bd_write_blocks(0, 1, 512), Err(ESP_ERR_INVALID_STATE));
}

#[test]
fn flush_needs_a_device() {
    assert_eq!(UsbMassStorage::new().bd_flush(), Err(ESP_ERR_INVALID_STATE));
    assert_eq!(open_drive(512, 1).bd_flush(), Ok(()));
}

#[test]
fn range_past_the_largest_drive_is_refused() {
    let u = open_drive(512, u32::MAX);
    assert_eq!(u.bd_read_blocks(u32::MAX - 1, 4, 2048), Err(ESP_ERR_INVALID_ARG));
    assert_eq!(u.bd_write_blocks(u32::MAX - 1, 4, 2048), Err(ESP_ERR_INVALID_ARG));
    assert!(u.bd_read_blocks(u32::MAX - 4, 4, 2048).is_ok());
}
