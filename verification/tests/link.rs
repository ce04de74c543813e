use bindkey_esp::esp_err::{
    ESP_ERR_INVALID_ARG, ESP_ERR_INVALID_CRC, ESP_ERR_INVALID_STATE, ESP_FAIL, ESP_OK,
};
use bindkey_esp::spi_link::protocol::{
    decode_capacity, spi_crc32, Cmd, Header, CRC_LEN, FLAG_RESPONSE, HDR_LEN, MAX_PAYLOAD,
};
use bindkey_esp::spi_link::transport::{Action, Event, Phase, SpiLink};
use bindkey_esp::usb_mass_storage::block_device::{CapacityReply, ScsiTransfer};
use bindkey_esp::usb_mass_storage::driver::UsbMassStorage;

fn ready_link() -> SpiLink {
    let mut l = SpiLink::new();
    assert_eq!(l.init(ESP_OK), Ok(()));
    l
}

fn drive(block_size: u32, block_count: u32) -> Option<UsbMassStorage> {
    let mut u = UsbMassStorage::new();
    u.handle = 0x1000;
    u.block_size = block_size;
    u.block_count = block_count;
    Some(u)
}

fn send(l: &mut SpiLink, usb: &mut Option<UsbMassStorage>, ev: Event) -> Action {
    assert!(l.accepts(&ev));
    l.step(usb, ev)
}

fn request(l: &mut SpiLink, usb: &mut Option<UsbMassStorage>, h: Header) -> Action {
    send(l, usb, Event::Received(Some(h.to_bytes())))
}

fn response(l: &SpiLink) -> (Header, Vec<u8>) {
    let h = Header::from_bytes(&l.resp).unwrap();
    (h, l.resp[HDR_LEN..].to_vec())
}

#[test]
fn init_failure_is_reported() {
    let mut l = SpiLink::new();
    assert_eq!(l.init(ESP_FAIL), Err(ESP_FAIL));
    assert!(!l.inited);
    assert_eq!(l.init(ESP_OK), Ok(()));
    assert!(l.inited);
}

#[test]
fn failed_header_transfer_waits_again() {
    let mut l = ready_link();
    let mut usb = drive(512, 100);
    assert_eq!(send(&mut l, &mut usb, Event::Received(None)), Action::ReceiveHeader);
    assert_eq!(l.phase, Phase::AwaitHeader);
}

#[test]
fn invalid_header_is_dropped() {
    let mut l = ready_link();
    let mut usb = drive(512, 100);
    let mut b = Header::request(Cmd::Flush, 1, 0, 0, 0).to_bytes();
    b[1] = 0;
    assert_eq!(send(&mut l, &mut usb, Event::Received(Some(b))), Action::ReceiveHeader);
}

#[test]
fn unknown_command_is_refused() {
    let mut l = ready_link();
    let mut usb = drive(512, 100);
    let mut h = Header::request(Cmd::Flush, 4, 0, 0, 0);
    h.cmd = 42;
    assert_eq!(request(&mut l, &mut usb, h), Action::SendResponse);
    let (r, p) = response(&l);
    assert_eq!(r.status(), ESP_ERR_INVALID_ARG);
    assert_eq!(r.cmd, 42);
    assert_eq!(r.seq, 4);
    assert_eq!(r.flags, FLAG_RESPONSE);
    assert!(p.is_empty());
    assert_eq!(send(&mut l, &mut usb, Event::Sent), Action::ReceiveHeader);
}

#[test]
fn flush_is_acknowledged() {
    let mut l = ready_link();
    let mut usb = drive(512, 100);
    assert_eq!(request(&mut l, &mut usb, Header::request(Cmd::Flush, 9, 0, 0, 0)), Action::SendResponse);
    let (r, p) = response(&l);
    assert_eq!(r.status(), ESP_OK);
    assert_eq!(r.seq, 9);
    assert!(p.is_empty());
}

#[test]
fn status_without_drive_is_zero() {
    let mut l = ready_link();
    let mut usb = None;
    assert_eq!(request(&mut l, &mut usb, Header::request(Cmd::GetStatus, 1, 0, 0, 0)), Action::SendResponse);
    let (r, p) = response(&l);
    assert_eq!(r.status(), ESP_OK);
    assert_eq!(p, vec![0]);
}

#[test]
fn status_probes_unit_ready() {
    let mut l = ready_link();
    let mut usb = drive(512, 100);
    assert_eq!(
        request(&mut l, &mut usb, Header::request(Cmd::GetStatus, 2, 0, 0, 0)),
        Action::TestUnitReady { handle: 0x1000 }
    );
    assert_eq!(send(&mut l, &mut usb, Event::UnitReady(ESP_OK)), Action::SendResponse);
    assert_eq!(response(&l).1, vec![2]);
    send(&mut l, &mut usb, Event::Sent);
    request(&mut l, &mut usb, Header::request(Cmd::GetStatus, 3, 0, 0, 0));
    send(&mut l, &mut usb, Event::UnitReady(ESP_FAIL));
    assert_eq!(response(&l).1, vec![1]);
}

#[test]
fn status_with_unknown_capacity_is_not_ready() {
    let mut l = ready_link();
    let mut usb = drive(0, 0);
    assert_eq!(request(&mut l, &mut usb, Header::request(Cmd::GetStatus, 2, 0, 0, 0)), Action::SendResponse);
    assert_eq!(response(&l).1, vec![1]);
}

#[test]
fn capacity_is_read_and_cached() {
    let mut l = ready_link();
    let mut usb = drive(0, 0);
    assert_eq!(
        request(&mut l, &mut usb, Header::request(Cmd::GetCapacity, 5, 0, 0, 0)),
        Action::ReadCapacity { handle: 0x1000 }
    );
    let rep = CapacityReply { err: ESP_OK, block_size: 512, block_count: 4096 };
    assert_eq!(send(&mut l, &mut usb, Event::Capacity(rep)), Action::SendResponse);
    let (r, p) = response(&l);
    assert_eq!(r.status(), ESP_OK);
    assert_eq!(r.arg1, 8);
    assert_eq!(decode_capacity(&p), Some((512, 4096)));
    assert_eq!(usb.as_ref().unwrap().block_count, 4096);
}

#[test]
fn capacity_error_is_passed_on() {
    let mut l = ready_link();
    let mut usb = drive(0, 0);
    request(&mut l, &mut usb, Header::request(Cmd::GetCapacity, 5, 0, 0, 0));
    let rep = CapacityReply { err: ESP_FAIL, block_size: 0, block_count: 0 };
    send(&mut l, &mut usb, Event::Capacity(rep));
    assert_eq!(response(&l).0.status(), ESP_FAIL);
}

#[test]
fn capacity_without_device() {
    let mut l = ready_link();
    let mut usb = Some(UsbMassStorage::new());
    request(&mut l, &mut usb, Header::request(Cmd::GetCapacity, 5, 0, 0, 0));
    assert_eq!(response(&l).0.status(), ESP_ERR_INVALID_STATE);
    let mut l2 = ready_link();
    let mut none = None;
    request(&mut l2, &mut none, Header::request(Cmd::GetCapacity, 5, 0, 0, 0));
    assert_eq!(response(&l2).0.status(), ESP_ERR_INVALID_STATE);
}

#[test]
fn read_chunk_comes_back_with_crc() {
    let mut l = ready_link();
    let mut usb = drive(512, 100);
    let a = request(&mut l, &mut usb, Header::request(Cmd::Read, 11, 2, 10, 40));
    let t = ScsiTransfer { handle: 0x1000, lba: 42, nblocks: 8, block_size: 512 };
    assert_eq!(a, Action::ReadBlocks { transfer: t, len: 4096 });
    let data: Vec<u8> = (0..4096u32).map(|i| (i % 251) as u8).collect();
    assert_eq!(send(&mut l, &mut usb, Event::BlocksRead(ESP_OK, data.clone())), Action::SendResponse);
    let (r, p) = response(&l);
    assert_eq!(r.status(), ESP_OK);
    assert_eq!(r.arg1, 4096);
    assert_eq!(r.reserved, 2);
    assert_eq!(r.seq, 11);
    assert_eq!(p.len(), 4096 + CRC_LEN);
    assert_eq!(&p[..4096], &data[..]);
    assert_eq!(p[4096..].to_vec(), spi_crc32(&data).to_le_bytes().to_vec());
}

#[test]
fn read_refreshes_unknown_capacity_first() {
    let mut l = ready_link();
    let mut usb = drive(0, 0);
    assert_eq!(
        request(&mut l, &mut usb, Header::request(Cmd::Read, 1, 0, 0, 16)),
        Action::ReadCapacity { handle: 0x1000 }
    );
    let rep = CapacityReply { err: ESP_OK, block_size: 512, block_count: 100 };
    let a = send(&mut l, &mut usb, Event::Capacity(rep));
    let t = ScsiTransfer { handle: 0x1000, lba: 0, nblocks: 16, block_size: 512 };
    assert_eq!(a, Action::ReadBlocks { transfer: t, len: MAX_PAYLOAD });
}

#[test]
fn read_past_the_end_is_refused() {
    let mut l = ready_link();
    let mut usb = drive(512, 100);
    request(&mut l, &mut usb, Header::request(Cmd::Read, 1, 0, 90, 20));
    assert_eq!(response(&l).0.status(), ESP_ERR_INVALID_ARG);
}

#[test]
fn read_error_is_passed_on() {
    let mut l = ready_link();
    let mut usb = drive(512, 100);
    request(&mut l, &mut usb, Header::request(Cmd::Read, 1, 0, 0, 1));
    send(&mut l, &mut usb, Event::BlocksRead(ESP_FAIL, Vec::new()));
    let (r, p) = response(&l);
    assert_eq!(r.status(), ESP_FAIL);
    assert!(p.is_empty());
}

#[test]
fn read_without_drive() {
    let mut l = ready_link();
    let mut none = None;
    request(&mut l, &mut none, Header::request(Cmd::Read, 1, 0, 0, 1));
    assert_eq!(response(&l).0.status(), ESP_ERR_INVALID_STATE);
}

fn framed(data: &[u8]) -> Vec<u8> {
    let mut v = data.to_vec();
    v.extend_from_slice(&spi_crc32(data).to_le_bytes());
    v
}

#[test]
fn write_chunk_is_checked_and_written() {
    let mut l = ready_link();
    let mut usb = drive(512, 100);
    let a = request(&mut l, &mut usb, Header::request(Cmd::Write, 6, 0, 20, 2));
    assert_eq!(a, Action::ReceivePayload { len: 1024 + CRC_LEN });
    let data = vec![0xA5u8; 1024];
    let a = send(&mut l, &mut usb, Event::Received(Some(framed(&data))));
    let t = ScsiTransfer { handle: 0x1000, lba: 20, nblocks: 2, block_size: 512 };
    assert_eq!(a, Action::WriteBlocks { transfer: t, len: 1024 });
    assert_eq!(&l.rx[..1024], &data[..]);
    assert_eq!(send(&mut l, &mut usb, Event::BlocksWritten(ESP_OK)), Action::SendResponse);
    let (r, p) = response(&l);
    assert_eq!(r.status(), ESP_OK);
    assert_eq!(r.arg1, 1024);
    assert!(p.is_empty());
}

#[test]
fn write_with_bad_crc_is_refused() {
    let mut l = ready_link();
    let mut usb = drive(512, 100);
    request(&mut l, &mut usb, Header::request(Cmd::Write, 6, 0, 20, 1));
    let mut payload = framed(&[7u8; 512]);
    payload[3] ^= 1;
    assert_eq!(send(&mut l, &mut usb, Event::Received(Some(payload))), Action::SendResponse);
    assert_eq!(response(&l).0.status(), ESP_ERR_INVALID_CRC);
}

#[test]
fn failed_payload_transfer_drops_the_request() {
    let mut l = ready_link();
    let mut usb = drive(512, 100);
    request(&mut l, &mut usb, Header::request(Cmd::Write, 6, 0, 20, 1));
    assert_eq!(send(&mut l, &mut usb, Event::Received(None)), Action::ReceiveHeader);
}

#[test]
fn write_error_is_passed_on() {
    let mut l = ready_link();
    let mut usb = drive(512, 100);
    request(&mut l, &mut usb, Header::request(Cmd::Write, 6, 0, 20, 1));
    send(&mut l, &mut usb, Event::Received(Some(framed(&[1u8; 512]))));
    send(&mut l, &mut usb, Event::BlocksWritten(ESP_FAIL));
    assert_eq!(response(&l).0.status(), ESP_FAIL);
}

#[test]
fn rejected_write_drains_its_payload() {
    let mut l = ready_link();
    let mut none = None;
    let a = request(&mut l, &mut none, Header::request(Cmd::Write, 6, 0, 20, 1));
    assert_eq!(a, Action::ReceivePayload { len: MAX_PAYLOAD + CRC_LEN });
    assert_eq!(send(&mut l, &mut none, Event::Received(None)), Action::SendResponse);
    assert_eq!(response(&l).0.status(), ESP_ERR_INVALID_STATE);

    let mut l2 = ready_link();
    let mut usb = drive(512, 100);
    let a = request(&mut l2, &mut usb, Header::request(Cmd::Write, 6, 0, 99, 2));
    assert_eq!(a, Action::ReceivePayload { len: MAX_PAYLOAD + CRC_LEN });
    send(&mut l2, &mut usb, Event::Received(Some(vec![0u8; MAX_PAYLOAD + CRC_LEN])));
    assert_eq!(response(&l2).0.status(), ESP_ERR_INVALID_ARG);
}

#[test]
fn unexpected_events_are_not_accepted() {
    let l = ready_link();
    assert!(!l.accepts(&Event::Sent));
    assert!(!l.accepts(&Event::Received(Some(vec![0u8; 3]))));
    assert!(l.accepts(&Event::Received(None)));
}

#[test]
fn long_payload_is_cut_to_a_frame() {
    let mut l = ready_link();
    let req = Header::request(Cmd::GetStatus, 1, 0, 0, 0);
    let big = vec![1u8; 9000];
    l.arm_response_with_arg1(&req, ESP_OK, 0, &big);
    assert_eq!(l.resp.len(), 8212);
}

#[test]
fn dropped_request_keeps_the_armed_frame() {
    let mut l = ready_link();
    let mut usb = drive(512, 100);
    request(&mut l, &mut usb, Header::request(Cmd::Flush, 3, 0, 0, 0));
    let armed = l.resp.clone();
    send(&mut l, &mut usb, Event::Sent);
    let mut b = Header::request(Cmd::Flush, 4, 0, 0, 0).to_bytes();
    b[0] = 0;
    assert_eq!(send(&mut l, &mut usb, Event::Received(Some(b))), Action::ReceiveHeader);
    assert_eq!(l.resp, armed);
}

#[test]
fn ready_handshake_frames_data_and_responses() {
    assert!(!Action::ReceiveHeader.raises_ready());
    assert!(Action::ReceivePayload { len: 8 }.raises_ready());
    assert!(Action::SendResponse.raises_ready());
    assert!(!Action::ReadCapacity { handle: 1 }.raises_ready());
}
