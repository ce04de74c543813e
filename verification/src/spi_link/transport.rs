//! The slave side of the SPI link: the service loop that answers the
//! master's requests, written as a state machine.
//!
//! The caller owns the SPI peripheral and the USB drive. It performs the
//! `Action` that `SpiLink::step` returns and hands the outcome back as the
//! next `Event`; every decision (which frame to answer, which SCSI command
//! to issue, when to drop a request) is taken here.

use vstd::prelude::*;

use crate::esp_err::{
    ESP_ERR_INVALID_ARG, ESP_ERR_INVALID_CRC, ESP_ERR_INVALID_STATE, ESP_OK,
};
use crate::spi_link::chunk::{compute_chunk, spec_compute_chunk};
use crate::spi_link::protocol::{
    crc32_prefix, encode_capacity, le32, push_le32, read_le32, spec_capacity_payload, spec_crc32,
    u32_from_le, Cmd, Header, CRC_LEN, HDR_LEN, MAX_PAYLOAD, RX_LEN,
};
use crate::usb_mass_storage::block_device::{CapacityReply, ScsiTransfer};
use crate::usb_mass_storage::driver::UsbMassStorage;

verus! {

/// What the link waits for.
#[derive(Clone, Copy, Debug, PartialEq, Eq, Structural)]
pub enum Phase {
    /// The header of the next request.
    AwaitHeader,
    /// The drive's answer to TEST UNIT READY, for a `GetStatus` request.
    AwaitUnitReady { req: Header },
    /// The drive's answer to READ CAPACITY, for a `GetCapacity` request.
    AwaitCapacity { req: Header },
    /// The drive's answer to READ CAPACITY, before serving a `Read` request.
    AwaitCapacityForRead { req: Header },
    /// The drive's answer to READ CAPACITY, before serving a `Write` request.
    AwaitCapacityForWrite { req: Header },
    /// The drive's answer to READ(10) of a chunk of `len` bytes.
    AwaitRead { req: Header, len: usize },
    /// The payload of a rejected `Write` request, to discard before
    /// answering with `status`.
    AwaitDrain { req: Header, status: i32 },
    /// The payload and CRC of a chunk of `len` bytes to write.
    AwaitPayload { req: Header, lba: u32, nblocks: u32, len: usize },
    /// The drive's answer to WRITE(10) of a chunk of `len` bytes.
    AwaitWrite { req: Header, len: usize },
    /// The end of sending the armed response.
    AwaitSent,
}

/// The outcome of an `Action`, handed back to `SpiLink::step`.
pub enum Event {
    /// A receive transfer ended: the bytes received, `None` if it failed.
    Received(Option<Vec<u8>>),
    /// The drive answered TEST UNIT READY with this code.
    UnitReady(i32),
    /// The drive answered READ CAPACITY.
    Capacity(CapacityReply),
    /// The drive answered READ(10) with this code and these bytes.
    BlocksRead(i32, Vec<u8>),
    /// The drive answered WRITE(10) with this code.
    BlocksWritten(i32),
    /// The armed response was sent.
    Sent,
}

/// What the caller must do next.
#[derive(Clone, Copy, Debug, PartialEq, Eq, Structural)]
pub enum Action {
    /// Receive a `HDR_LEN`-byte header.
    ReceiveHeader,
    /// Issue TEST UNIT READY to the device.
    TestUnitReady { handle: usize },
    /// Issue READ CAPACITY to the device.
    ReadCapacity { handle: usize },
    /// Issue this READ(10), reading `len` bytes.
    ReadBlocks { transfer: ScsiTransfer, len: usize },
    /// Raise READY, receive `len` bytes while sending zeros, lower READY.
    ReceivePayload { len: usize },
    /// Issue this WRITE(10) with the first `len` bytes of `rx`.
    WriteBlocks { transfer: ScsiTransfer, len: usize },
    /// Raise READY, send `resp`, lower READY.
    SendResponse,
}

/// The number of bytes that the SPI transfer asked for by `a` moves; 0 for
/// an action that makes no SPI transfer.
pub open spec fn spec_transfer_len(l: SpiLink, a: Action) -> int {
    match a {
        Action::ReceiveHeader => HDR_LEN as int,
        Action::ReceivePayload { len } => len as int,
        Action::SendResponse => l.resp@.len() as int,
        _ => 0,
    }
}

impl Action {
    /// Whether the SPI transfer of this action is framed by the READY
    /// handshake (READY raised before it and lowered after it): data-phase
    /// receives and responses are, header receives are not.
    pub open spec fn spec_raises_ready(self) -> bool {
        self is ReceivePayload || self is SendResponse
    }

    /// Whether the SPI transfer of this action is framed by the READY
    /// handshake.
    pub fn raises_ready(&self) -> (r: bool)
        ensures
            r == self.spec_raises_ready(),
    {
        match self {
            Action::ReceivePayload { .. } | Action::SendResponse => true,
            _ => false,
        }
    }
}

/// The state of the link.
pub struct SpiLink {
    /// Whether the SPI peripheral was set up.
    pub inited: bool,
    /// The armed response frame.
    pub resp: Vec<u8>,
    /// The blocks last read from the drive.
    pub block_buf: Vec<u8>,
    /// The last write payload received, CRC trailer included.
    pub rx: Vec<u8>,
    /// What the link waits for.
    pub phase: Phase,
}

/// The header of the response to `req` that reports `status` and carries
/// `arg1`; it keeps the request's chunk index.
pub open spec fn response_header(req: Header, status: i32, arg1: u32) -> Header {
    Header { reserved: req.reserved, arg1, ..Header::spec_response_for(req, status) }
}

/// A response frame: the header, then as much of `payload` as fits.
pub open spec fn spec_frame(req: Header, status: i32, arg1: u32, payload: Seq<u8>) -> Seq<u8> {
    let n = if payload.len() < RX_LEN - HDR_LEN {
        payload.len() as int
    } else {
        RX_LEN - HDR_LEN
    };
    response_header(req, status, arg1).spec_to_bytes() + payload.take(n)
}

/// A response frame that carries blocks: the header, then the data and
/// its CRC-32, when there is any data.
pub open spec fn spec_block_frame(req: Header, status: i32, arg1: u32, data: Seq<u8>) -> Seq<u8> {
    if data.len() > 0 {
        response_header(req, status, arg1).spec_to_bytes() + data + le32(spec_crc32(data))
    } else {
        response_header(req, status, arg1).spec_to_bytes()
    }
}

/// The frame that answers `req` with `status` alone.
pub open spec fn status_frame(req: Header, status: i32) -> Seq<u8> {
    spec_frame(req, status, 0, Seq::empty())
}

/// Appends the first `n` bytes of `src`.
fn extend_prefix(out: &mut Vec<u8>, src: &[u8], n: usize)
    requires
        n <= src@.len(),
    ensures
        final(out)@ == old(out)@ + src@.take(n as int),
{
    let mut i: usize = 0;
    while i < n
        invariant
            i <= n <= src@.len(),
            out@ == old(out)@ + src@.take(i as int),
        decreases n - i,
    {
        out.push(src[i]);
        i += 1;
        assert(out@ =~= old(out)@ + src@.take(i as int));
    }
}

impl SpiLink {
    /// The invariant of the link: a chunk in flight is at most
    /// `MAX_PAYLOAD` bytes, the payload of a write in flight is at hand,
    /// and the armed response fits in a frame.
    pub open spec fn wf(self) -> bool {
        &&& self.resp@.len() <= RX_LEN
        &&& match self.phase {
            Phase::AwaitRead { len, .. } => 0 < len <= MAX_PAYLOAD,
            Phase::AwaitPayload { len, .. } => 0 < len <= MAX_PAYLOAD,
            Phase::AwaitWrite { len, .. } => 0 < len <= MAX_PAYLOAD && len + CRC_LEN
                <= self.rx@.len(),
            _ => true,
        }
    }

    /// A link that was not set up yet, waiting for a header.
    pub fn new() -> (l: Self)
        ensures
            !l.inited,
            l.phase == Phase::AwaitHeader,
            l.resp@.len() == 0,
            l.block_buf@.len() == 0,
            l.rx@.len() == 0,
            l.wf(),
    {
        SpiLink {
            inited: false,
            resp: Vec::new(),
            block_buf: Vec::new(),
            rx: Vec::new(),
            phase: Phase::AwaitHeader,
        }
    }

    /// Records the outcome of setting up the SPI peripheral: the link is
    /// set up exactly when that returned `ESP_OK`, and the error is passed
    /// on otherwise.
    pub fn init(&mut self, slave_init_err: i32) -> (r: Result<(), i32>)
        ensures
            r == (if slave_init_err == ESP_OK {
                Ok::<(), i32>(())
            } else {
                Err(slave_init_err)
            }),
            final(self).inited == (old(self).inited || slave_init_err == ESP_OK),
            final(self).phase == old(self).phase,
            final(self).resp@ == old(self).resp@,
            final(self).block_buf@ == old(self).block_buf@,
            final(self).rx@ == old(self).rx@,
    {
        if slave_init_err != ESP_OK {
            return Err(slave_init_err);
        }
        self.inited = true;
        Ok(())
    }

    /// Arms the response to `req` that reports `status`, carries `arg1`,
    /// and as much of `payload` as fits in a frame.
    pub fn arm_response_with_arg1(&mut self, req: &Header, status: i32, arg1: u32, payload: &[u8])
        ensures
            final(self).resp@ == spec_frame(*req, status, arg1, payload@),
            final(self).resp@.len() <= RX_LEN,
            final(self).phase == old(self).phase,
            final(self).inited == old(self).inited,
            final(self).block_buf@ == old(self).block_buf@,
            final(self).rx@ == old(self).rx@,
    {
        let mut resp_hdr = Header::response_for(req, status);
        resp_hdr.reserved = req.reserved;
        resp_hdr.arg1 = arg1;
        let mut frame = resp_hdr.to_bytes();
        let max_pay = RX_LEN - HDR_LEN;
        let pay_len = if payload.len() < max_pay {
            payload.len()
        } else {
            max_pay
        };
        extend_prefix(&mut frame, payload, pay_len);
        self.resp = frame;
    }

    /// Arms the response to `req` that reports `status` and carries
    /// `payload`.
    pub fn arm_response(&mut self, req: &Header, status: i32, payload: &[u8])
        ensures
            final(self).resp@ == spec_frame(*req, status, 0, payload@),
            final(self).resp@.len() <= RX_LEN,
            final(self).phase == old(self).phase,
            final(self).inited == old(self).inited,
            final(self).block_buf@ == old(self).block_buf@,
            final(self).rx@ == old(self).rx@,
    {
        self.arm_response_with_arg1(req, status, 0, payload);
    }

    /// Arms the response to `req` that reports `status`, carries `arg1`,
    /// and the first `len` bytes of `block_buf` (at most `MAX_PAYLOAD`)
    /// followed by their CRC-32.
    pub fn arm_response_from_block_buf(&mut self, req: &Header, status: i32, arg1: u32, len: usize)
        requires
            (if len < MAX_PAYLOAD { len } else { MAX_PAYLOAD }) <= old(self).block_buf@.len(),
        ensures
            final(self).resp@ == spec_block_frame(
                *req,
                status,
                arg1,
                old(self).block_buf@.take(
                    (if len < MAX_PAYLOAD {
                        len
                    } else {
                        MAX_PAYLOAD
                    }) as int,
                ),
            ),
            final(self).resp@.len() <= RX_LEN,
            final(self).phase == old(self).phase,
            final(self).inited == old(self).inited,
            final(self).block_buf@ == old(self).block_buf@,
            final(self).rx@ == old(self).rx@,
    {
        let mut resp_hdr = Header::response_for(req, status);
        resp_hdr.reserved = req.reserved;
        resp_hdr.arg1 = arg1;
        let mut frame = resp_hdr.to_bytes();
        let pay_len = if len < MAX_PAYLOAD {
            len
        } else {
            MAX_PAYLOAD
        };
        if pay_len > 0 {
            extend_prefix(&mut frame, self.block_buf.as_slice(), pay_len);
            let crc = crc32_prefix(self.block_buf.as_slice(), pay_len);
            push_le32(&mut frame, crc);
        }
        self.resp = frame;
    }
}


// ---------------------------------------------------------------------------
// Transitions
// ---------------------------------------------------------------------------

/// `l` has armed `frame` and waits for it to be sent.
pub open spec fn answers(l: SpiLink, a: Action, frame: Seq<u8>) -> bool {
    &&& l.phase == Phase::AwaitSent
    &&& l.resp@ == frame
    &&& a == Action::SendResponse
}

/// `l` waits for the next request header.
pub open spec fn listens(l: SpiLink, a: Action) -> bool {
    l.phase == Phase::AwaitHeader && a == Action::ReceiveHeader
}

/// `l` discards the payload of the rejected write `req`, then answers with
/// `status`.
pub open spec fn drains(l: SpiLink, a: Action, req: Header, status: i32) -> bool {
    &&& l.phase == (Phase::AwaitDrain { req, status })
    &&& a == (Action::ReceivePayload { len: (MAX_PAYLOAD + CRC_LEN) as usize })
}

/// The drive's state after it answered READ CAPACITY with `rep`: the
/// capacity is cached when a device is open and the command succeeded.
pub open spec fn spec_refreshed(u: UsbMassStorage, rep: CapacityReply) -> UsbMassStorage {
    if u.handle != 0 && rep.err == ESP_OK {
        UsbMassStorage { block_size: rep.block_size, block_count: rep.block_count, ..u }
    } else {
        u
    }
}

/// How a `Read` request `req` is served once the capacity is settled: the
/// chunk it names is computed and checked, and either read or refused with
/// the error.
pub open spec fn serves_read(req: Header, u: UsbMassStorage, l: SpiLink, a: Action) -> bool {
    match spec_compute_chunk(u.block_size, u.block_count, req.arg0, req.arg1, req.reserved) {
        Err(e) => answers(l, a, status_frame(req, e)),
        Ok((lba, nb, len)) => match u.spec_check_transfer(lba, nb, len as nat) {
            Err(e) => answers(l, a, status_frame(req, e)),
            Ok(t) => l.phase == (Phase::AwaitRead { req, len }) && a == (Action::ReadBlocks {
                transfer: t,
                len,
            }),
        },
    }
}

/// How a `Write` request `req` is served once the capacity is settled: the
/// chunk it names is computed, and either its payload is received or the
/// payload is discarded and the request refused with the error.
pub open spec fn serves_write(req: Header, u: UsbMassStorage, l: SpiLink, a: Action) -> bool {
    match spec_compute_chunk(u.block_size, u.block_count, req.arg0, req.arg1, req.reserved) {
        Err(e) => drains(l, a, req, e),
        Ok((lba, nb, len)) => l.phase == (Phase::AwaitPayload { req, lba, nblocks: nb, len })
            && a == (Action::ReceivePayload { len: (len + CRC_LEN) as usize }),
    }
}

/// How the request with header `req` is served, the drive being `usb`.
pub open spec fn serves_request(
    req: Header,
    usb: Option<UsbMassStorage>,
    l: SpiLink,
    a: Action,
) -> bool {
    if !req.spec_is_valid() {
        listens(l, a)
    } else {
        match Cmd::spec_from_code(req.cmd) {
            None => answers(l, a, status_frame(req, ESP_ERR_INVALID_ARG)),
            Some(Cmd::GetStatus) => match usb {
                None => answers(l, a, spec_frame(req, ESP_OK, 0, seq![0u8])),
                Some(u) => if u.spec_unit_ready_needed() {
                    l.phase == (Phase::AwaitUnitReady { req }) && a == (Action::TestUnitReady {
                        handle: u.handle,
                    })
                } else {
                    answers(
                        l,
                        a,
                        spec_frame(req, ESP_OK, 0, seq![u.spec_bd_status(None).spec_code()]),
                    )
                },
            },
            Some(Cmd::GetCapacity) => match usb {
                None => answers(l, a, status_frame(req, ESP_ERR_INVALID_STATE)),
                Some(u) => if u.handle == 0 {
                    answers(l, a, status_frame(req, ESP_ERR_INVALID_STATE))
                } else {
                    l.phase == (Phase::AwaitCapacity { req }) && a == (Action::ReadCapacity {
                        handle: u.handle,
                    })
                },
            },
            Some(Cmd::Read) => match usb {
                None => answers(l, a, status_frame(req, ESP_ERR_INVALID_STATE)),
                Some(u) => if !u.capacity_known() && u.handle != 0 {
                    l.phase == (Phase::AwaitCapacityForRead { req }) && a == (
                    Action::ReadCapacity { handle: u.handle })
                } else {
                    serves_read(req, u, l, a)
                },
            },
            Some(Cmd::Write) => match usb {
                None => drains(l, a, req, ESP_ERR_INVALID_STATE),
                Some(u) => if !u.capacity_known() && u.handle != 0 {
                    l.phase == (Phase::AwaitCapacityForWrite { req }) && a == (
                    Action::ReadCapacity { handle: u.handle })
                } else {
                    serves_write(req, u, l, a)
                },
            },
            Some(Cmd::Flush) => answers(l, a, status_frame(req, ESP_OK)),
        }
    }
}

/// The status byte of a `GetStatus` answer once the drive answered TEST
/// UNIT READY with `err`.
pub open spec fn probed_status_code(usb: Option<UsbMassStorage>, err: i32) -> u8 {
    match usb {
        None => 0u8,
        Some(u) => u.spec_bd_status(Some(err)).spec_code(),
    }
}

/// How a `GetCapacity` request is answered once the drive answered READ
/// CAPACITY with `rep`.
pub open spec fn capacity_frame(req: Header, usb: Option<UsbMassStorage>, rep: CapacityReply) -> Seq<
    u8,
> {
    match usb {
        None => status_frame(req, ESP_ERR_INVALID_STATE),
        Some(u) => if u.handle == 0 {
            status_frame(req, ESP_ERR_INVALID_STATE)
        } else if rep.err != ESP_OK {
            status_frame(req, rep.err)
        } else {
            spec_frame(req, ESP_OK, 8, spec_capacity_payload(rep.block_size, rep.block_count))
        },
    }
}

/// The drive after READ CAPACITY was answered with `rep`.
pub open spec fn usb_refreshed(usb: Option<UsbMassStorage>, rep: CapacityReply) -> Option<
    UsbMassStorage,
> {
    match usb {
        None => None,
        Some(u) => Some(spec_refreshed(u, rep)),
    }
}

/// The CRC trailer received after a write payload of `len` bytes.
pub open spec fn received_crc(d: Seq<u8>, len: int) -> u32 {
    u32_from_le(d[len], d[len + 1], d[len + 2], d[len + 3])
}

/// How a write payload `d` of a `len`-byte chunk of `lba`, `nb` is
/// handled: a CRC mismatch is refused with `ESP_ERR_INVALID_CRC`; otherwise
/// the transfer is checked and either issued or refused with the error.
pub open spec fn serves_payload(
    req: Header,
    lba: u32,
    nb: u32,
    len: usize,
    d: Seq<u8>,
    usb: Option<UsbMassStorage>,
    l: SpiLink,
    a: Action,
) -> bool {
    if received_crc(d, len as int) != spec_crc32(d.take(len as int)) {
        answers(l, a, status_frame(req, ESP_ERR_INVALID_CRC))
    } else {
        match usb {
            None => answers(l, a, status_frame(req, ESP_ERR_INVALID_STATE)),
            Some(u) => match u.spec_check_transfer(lba, nb, len as nat) {
                Err(e) => answers(l, a, status_frame(req, e)),
                Ok(t) => l.phase == (Phase::AwaitWrite { req, len }) && a == (Action::WriteBlocks {
                    transfer: t,
                    len,
                }),
            },
        }
    }
}

/// One transition of the link: from `l` with the drive `usb`, on `ev`, to
/// `l2` with the drive `usb2`, asking for `a`.
pub open spec fn spec_step(
    l: SpiLink,
    usb: Option<UsbMassStorage>,
    ev: Event,
    l2: SpiLink,
    usb2: Option<UsbMassStorage>,
    a: Action,
) -> bool {
    &&& l2.inited == l.inited
    &&& (a == Action::ReceiveHeader ==> l2.resp@ == l.resp@)
    &&& match l.phase {
        Phase::AwaitHeader => {
            &&& usb2 == usb
            &&& l2.block_buf@ == l.block_buf@ && l2.rx@ == l.rx@
            &&& match ev {
                Event::Received(None) => listens(l2, a),
                Event::Received(Some(b)) => serves_request(Header::spec_from_bytes(b@), usb, l2, a),
                _ => false,
            }
        },
        Phase::AwaitUnitReady { req } => {
            &&& usb2 == usb
            &&& l2.block_buf@ == l.block_buf@ && l2.rx@ == l.rx@
            &&& match ev {
                Event::UnitReady(err) => answers(
                    l2,
                    a,
                    spec_frame(req, ESP_OK, 0, seq![probed_status_code(usb, err)]),
                ),
                _ => false,
            }
        },
        Phase::AwaitCapacity { req } => {
            &&& l2.block_buf@ == l.block_buf@ && l2.rx@ == l.rx@
            &&& match ev {
                Event::Capacity(rep) => usb2 == usb_refreshed(usb, rep) && answers(
                    l2,
                    a,
                    capacity_frame(req, usb, rep),
                ),
                _ => false,
            }
        },
        Phase::AwaitCapacityForRead { req } => {
            &&& l2.block_buf@ == l.block_buf@ && l2.rx@ == l.rx@
            &&& match ev {
                Event::Capacity(rep) => usb2 == usb_refreshed(usb, rep) && match usb {
                    None => answers(l2, a, status_frame(req, ESP_ERR_INVALID_STATE)),
                    Some(u) => serves_read(req, spec_refreshed(u, rep), l2, a),
                },
                _ => false,
            }
        },
        Phase::AwaitCapacityForWrite { req } => {
            &&& l2.block_buf@ == l.block_buf@ && l2.rx@ == l.rx@
            &&& match ev {
                Event::Capacity(rep) => usb2 == usb_refreshed(usb, rep) && match usb {
                    None => drains(l2, a, req, ESP_ERR_INVALID_STATE),
                    Some(u) => serves_write(req, spec_refreshed(u, rep), l2, a),
                },
                _ => false,
            }
        },
        Phase::AwaitRead { req, len } => {
            &&& usb2 == usb
            &&& l2.rx@ == l.rx@
            &&& match ev {
                Event::BlocksRead(err, data) => if err == ESP_OK {
                    l2.block_buf@ == data@ && answers(
                        l2,
                        a,
                        spec_block_frame(req, ESP_OK, len as u32, data@),
                    )
                } else {
                    l2.block_buf@ == l.block_buf@ && answers(l2, a, status_frame(req, err))
                },
                _ => false,
            }
        },
        Phase::AwaitDrain { req, status } => {
            &&& usb2 == usb
            &&& l2.block_buf@ == l.block_buf@ && l2.rx@ == l.rx@
            &&& (ev is Received)
            &&& answers(l2, a, status_frame(req, status))
        },
        Phase::AwaitPayload { req, lba, nblocks, len } => {
            &&& usb2 == usb
            &&& l2.block_buf@ == l.block_buf@
            &&& match ev {
                Event::Received(None) => l2.rx@ == l.rx@ && listens(l2, a),
                Event::Received(Some(d)) => l2.rx@ == d@ && serves_payload(
                    req,
                    lba,
                    nblocks,
                    len,
                    d@,
                    usb,
                    l2,
                    a,
                ),
                _ => false,
            }
        },
        Phase::AwaitWrite { req, len } => {
            &&& usb2 == usb
            &&& l2.block_buf@ == l.block_buf@ && l2.rx@ == l.rx@
            &&& match ev {
                Event::BlocksWritten(err) => if err == ESP_OK {
                    answers(l2, a, spec_frame(req, ESP_OK, len as u32, Seq::empty()))
                } else {
                    answers(l2, a, status_frame(req, err))
                },
                _ => false,
            }
        },
        Phase::AwaitSent => {
            &&& usb2 == usb
            &&& l2.block_buf@ == l.block_buf@ && l2.rx@ == l.rx@
            &&& (ev is Sent)
            &&& listens(l2, a)
        },
    }
}

impl SpiLink {
    /// Whether `ev` is an outcome of the action the link asked for.
    pub open spec fn spec_accepts(self, ev: Event) -> bool {
        match self.phase {
            Phase::AwaitHeader => match ev {
                Event::Received(r) => r matches Some(b) ==> b@.len() >= HDR_LEN,
                _ => false,
            },
            Phase::AwaitUnitReady { .. } => ev is UnitReady,
            Phase::AwaitCapacity { .. } => ev is Capacity,
            Phase::AwaitCapacityForRead { .. } => ev is Capacity,
            Phase::AwaitCapacityForWrite { .. } => ev is Capacity,
            Phase::AwaitRead { len, .. } => match ev {
                Event::BlocksRead(err, d) => err == ESP_OK ==> d@.len() == len,
                _ => false,
            },
            Phase::AwaitDrain { .. } => ev is Received,
            Phase::AwaitPayload { len, .. } => match ev {
                Event::Received(r) => r matches Some(b) ==> b@.len() >= len + CRC_LEN,
                _ => false,
            },
            Phase::AwaitWrite { .. } => ev is BlocksWritten,
            Phase::AwaitSent => ev is Sent,
        }
    }

    /// Whether the link may take a step on `ev`: it was set up, its
    /// invariant holds, and `ev` is an outcome of the action it asked for.
    pub fn accepts(&self, ev: &Event) -> (r: bool)
        ensures
            r == (self.inited && self.wf() && self.spec_accepts(*ev)),
    {
        if !self.inited || self.resp.len() > RX_LEN {
            return false;
        }
        match self.phase {
            Phase::AwaitRead { len, .. } | Phase::AwaitPayload { len, .. } => {
                if len == 0 || len > MAX_PAYLOAD {
                    return false;
                }
            },
            Phase::AwaitWrite { len, .. } => {
                if len == 0 || len > MAX_PAYLOAD || self.rx.len() < len + CRC_LEN {
                    return false;
                }
            },
            _ => {},
        }
        match self.phase {
            Phase::AwaitHeader => match ev {
                Event::Received(r) => match r {
                    Some(b) => b.len() >= HDR_LEN,
                    None => true,
                },
                _ => false,
            },
            Phase::AwaitUnitReady { .. } => match ev {
                Event::UnitReady(_) => true,
                _ => false,
            },
            Phase::AwaitCapacity { .. } | Phase::AwaitCapacityForRead { .. }
            | Phase::AwaitCapacityForWrite { .. } => match ev {
                Event::Capacity(_) => true,
                _ => false,
            },
            Phase::AwaitRead { len, .. } => match ev {
                Event::BlocksRead(err, d) => *err != ESP_OK || d.len() == len,
                _ => false,
            },
            Phase::AwaitDrain { .. } => match ev {
                Event::Received(_) => true,
                _ => false,
            },
            Phase::AwaitPayload { len, .. } => match ev {
                Event::Received(r) => match r {
                    Some(b) => b.len() >= len && b.len() - len >= CRC_LEN,
                    None => true,
                },
                _ => false,
            },
            Phase::AwaitWrite { .. } => match ev {
                Event::BlocksWritten(_) => true,
                _ => false,
            },
            Phase::AwaitSent => match ev {
                Event::Sent => true,
                _ => false,
            },
        }
    }

    /// Answers `req` with `status` alone.
    fn answer(&mut self, req: &Header, status: i32) -> (a: Action)
        ensures
            answers(*final(self), a, status_frame(*req, status)),
            final(self).inited == old(self).inited,
            final(self).block_buf@ == old(self).block_buf@,
            final(self).rx@ == old(self).rx@,
    {
        let empty: Vec<u8> = Vec::new();
        self.arm_response(req, status, empty.as_slice());
        self.phase = Phase::AwaitSent;
        Action::SendResponse
    }

    /// Answers `req` with `status`, `arg1` and `payload`.
    fn answer_with(&mut self, req: &Header, status: i32, arg1: u32, payload: &[u8]) -> (a: Action)
        ensures
            answers(*final(self), a, spec_frame(*req, status, arg1, payload@)),
            final(self).inited == old(self).inited,
            final(self).block_buf@ == old(self).block_buf@,
            final(self).rx@ == old(self).rx@,
    {
        self.arm_response_with_arg1(req, status, arg1, payload);
        self.phase = Phase::AwaitSent;
        Action::SendResponse
    }

    /// Discards the payload of the rejected write `req`, to answer with
    /// `status` after it.
    fn drain(&mut self, req: Header, status: i32) -> (a: Action)
        ensures
            drains(*final(self), a, req, status),
            final(self).resp@ == old(self).resp@,
            final(self).inited == old(self).inited,
            final(self).block_buf@ == old(self).block_buf@,
            final(self).rx@ == old(self).rx@,
    {
        self.phase = Phase::AwaitDrain { req, status };
        Action::ReceivePayload { len: MAX_PAYLOAD + CRC_LEN }
    }

    /// Serves a `Read` request once the capacity is settled.
    fn serve_read(&mut self, u: &UsbMassStorage, req: Header) -> (a: Action)
        requires
            old(self).resp@.len() <= RX_LEN,
        ensures
            serves_read(req, *u, *final(self), a),
            final(self).wf(),
            final(self).inited == old(self).inited,
            final(self).block_buf@ == old(self).block_buf@,
            final(self).rx@ == old(self).rx@,
    {
        match compute_chunk(u.block_size, u.block_count, req.arg0, req.arg1, req.reserved) {
            Err(e) => self.answer(&req, e),
            Ok((lba, nb, len)) => {
                proof {
                    crate::spi_link::chunk::lemma_chunks_tile_range(
                        u.block_size,
                        u.block_count,
                        req.arg0,
                        req.arg1,
                        req.reserved,
                    );
                }
                match u.bd_read_blocks(lba, nb, len) {
                    Err(e) => self.answer(&req, e),
                    Ok(t) => {
                        self.phase = Phase::AwaitRead { req, len };
                        Action::ReadBlocks { transfer: t, len }
                    },
                }
            },
        }
    }

    /// Serves a `Write` request once the capacity is settled.
    fn serve_write(&mut self, u: &UsbMassStorage, req: Header) -> (a: Action)
        requires
            old(self).resp@.len() <= RX_LEN,
        ensures
            serves_write(req, *u, *final(self), a),
            final(self).wf(),
            final(self).resp@ == old(self).resp@,
            final(self).inited == old(self).inited,
            final(self).block_buf@ == old(self).block_buf@,
            final(self).rx@ == old(self).rx@,
    {
        match compute_chunk(u.block_size, u.block_count, req.arg0, req.arg1, req.reserved) {
            Err(e) => self.drain(req, e),
            Ok((lba, nb, len)) => {
                proof {
                    crate::spi_link::chunk::lemma_chunks_tile_range(
                        u.block_size,
                        u.block_count,
                        req.arg0,
                        req.arg1,
                        req.reserved,
                    );
                }
                self.phase = Phase::AwaitPayload { req, lba, nblocks: nb, len };
                Action::ReceivePayload { len: len + CRC_LEN }
            },
        }
    }

    /// Serves the request whose header is `req`.
    fn on_request(&mut self, usb: &Option<UsbMassStorage>, req: Header) -> (a: Action)
        requires
            old(self).resp@.len() <= RX_LEN,
        ensures
            serves_request(req, *usb, *final(self), a),
            a == Action::ReceiveHeader ==> final(self).resp@ == old(self).resp@,
            final(self).wf(),
            final(self).inited == old(self).inited,
            final(self).block_buf@ == old(self).block_buf@,
            final(self).rx@ == old(self).rx@,
    {
        if !req.is_valid() {
            self.phase = Phase::AwaitHeader;
            return Action::ReceiveHeader;
        }
        match req.cmd_enum() {
            None => self.answer(&req, ESP_ERR_INVALID_ARG),
            Some(Cmd::GetStatus) => match usb {
                None => {
                    let payload: Vec<u8> = vec![0u8];
                    assert(payload@ == seq![0u8]);
                    self.answer_with(&req, ESP_OK, 0, payload.as_slice())
                },
                Some(u) => {
                    if u.unit_ready_needed() {
                        self.phase = Phase::AwaitUnitReady { req };
                        Action::TestUnitReady { handle: u.handle }
                    } else {
                        let code = u.bd_status(None).code();
                        let payload: Vec<u8> = vec![code];
                        assert(payload@ == seq![code]);
                        self.answer_with(&req, ESP_OK, 0, payload.as_slice())
                    }
                },
            },
            Some(Cmd::GetCapacity) => match usb {
                None => self.answer(&req, ESP_ERR_INVALID_STATE),
                Some(u) => {
                    if u.handle == 0 {
                        self.answer(&req, ESP_ERR_INVALID_STATE)
                    } else {
                        self.phase = Phase::AwaitCapacity { req };
                        Action::ReadCapacity { handle: u.handle }
                    }
                },
            },
            Some(Cmd::Read) => match usb {
                None => self.answer(&req, ESP_ERR_INVALID_STATE),
                Some(u) => {
                    if u.capacity_unknown() && u.handle != 0 {
                        self.phase = Phase::AwaitCapacityForRead { req };
                        Action::ReadCapacity { handle: u.handle }
                    } else {
                        self.serve_read(u, req)
                    }
                },
            },
            Some(Cmd::Write) => match usb {
                None => self.drain(req, ESP_ERR_INVALID_STATE),
                Some(u) => {
                    if u.capacity_unknown() && u.handle != 0 {
                        self.phase = Phase::AwaitCapacityForWrite { req };
                        Action::ReadCapacity { handle: u.handle }
                    } else {
                        self.serve_write(u, req)
                    }
                },
            },
            Some(Cmd::Flush) => self.answer(&req, ESP_OK),
        }
    }

    /// Takes one step of the service loop: consumes the outcome `event` of
    /// the last action, with the drive `usb`, and returns the next action.
    /// The transition is `spec_step`.
    pub fn step(&mut self, usb: &mut Option<UsbMassStorage>, event: Event) -> (a: Action)
        requires
            old(self).inited,
            old(self).wf(),
            old(self).spec_accepts(event),
        ensures
            final(self).wf(),
            spec_transfer_len(*final(self), a) <= RX_LEN,
            spec_step(*old(self), *old(usb), event, *final(self), *final(usb), a),
    {
        let phase = self.phase;
        match phase {
            Phase::AwaitHeader => match event {
                Event::Received(Some(b)) => {
                    let req = Header::from_bytes(b.as_slice()).unwrap();
                    self.on_request(usb, req)
                },
                _ => Action::ReceiveHeader,
            },
            Phase::AwaitUnitReady { req } => {
                let err = match event {
                    Event::UnitReady(err) => err,
                    _ => ESP_OK,
                };
                let code = match usb {
                    None => 0u8,
                    Some(u) => u.bd_status(Some(err)).code(),
                };
                let payload: Vec<u8> = vec![code];
                assert(payload@ == seq![code]);
                self.answer_with(&req, ESP_OK, 0, payload.as_slice())
            },
            Phase::AwaitCapacity { req } => {
                let rep = match event {
                    Event::Capacity(rep) => rep,
                    _ => CapacityReply { err: ESP_OK, block_size: 0, block_count: 0 },
                };
                match usb {
                    None => self.answer(&req, ESP_ERR_INVALID_STATE),
                    Some(u) => match u.bd_refresh_capacity(Some(rep)) {
                        Ok((bs, bc)) => {
                            let capacity = encode_capacity(bs, bc);
                            self.answer_with(&req, ESP_OK, 8, capacity.as_slice())
                        },
                        Err(e) => self.answer(&req, e),
                    },
                }
            },
            Phase::AwaitCapacityForRead { req } => {
                let rep = match event {
                    Event::Capacity(rep) => rep,
                    _ => CapacityReply { err: ESP_OK, block_size: 0, block_count: 0 },
                };
                match usb {
                    None => self.answer(&req, ESP_ERR_INVALID_STATE),
                    Some(u) => {
                        let _ = u.bd_refresh_capacity(Some(rep));
                        self.serve_read(u, req)
                    },
                }
            },
            Phase::AwaitCapacityForWrite { req } => {
                let rep = match event {
                    Event::Capacity(rep) => rep,
                    _ => CapacityReply { err: ESP_OK, block_size: 0, block_count: 0 },
                };
                match usb {
                    None => self.drain(req, ESP_ERR_INVALID_STATE),
                    Some(u) => {
                        let _ = u.bd_refresh_capacity(Some(rep));
                        self.serve_write(u, req)
                    },
                }
            },
            Phase::AwaitRead { req, len } => match event {
                Event::BlocksRead(err, data) => {
                    if err == ESP_OK {
                        self.block_buf = data;
                        assert(self.block_buf@.take(len as int) =~= self.block_buf@);
                        self.arm_response_from_block_buf(&req, ESP_OK, len as u32, len);
                        self.phase = Phase::AwaitSent;
                        Action::SendResponse
                    } else {
                        self.answer(&req, err)
                    }
                },
                _ => Action::ReceiveHeader,
            },
            Phase::AwaitDrain { req, status } => self.answer(&req, status),
            Phase::AwaitPayload { req, lba, nblocks, len } => match event {
                Event::Received(Some(d)) => {
                    let received = read_le32(d.as_slice(), len);
                    let computed = crc32_prefix(d.as_slice(), len);
                    self.rx = d;
                    if received != computed {
                        self.answer(&req, ESP_ERR_INVALID_CRC)
                    } else {
                        match usb {
                            None => self.answer(&req, ESP_ERR_INVALID_STATE),
                            Some(u) => match u.bd_write_blocks(lba, nblocks, len) {
                                Err(e) => self.answer(&req, e),
                                Ok(t) => {
                                    self.phase = Phase::AwaitWrite { req, len };
                                    Action::WriteBlocks { transfer: t, len }
                                },
                            },
                        }
                    }
                },
                _ => {
                    self.phase = Phase::AwaitHeader;
                    Action::ReceiveHeader
                },
            },
            Phase::AwaitWrite { req, len } => {
                let err = match event {
                    Event::BlocksWritten(err) => err,
                    _ => ESP_OK,
                };
                if err == ESP_OK {
                    let empty: Vec<u8> = Vec::new();
                    self.answer_with(&req, ESP_OK, len as u32, empty.as_slice())
                } else {
                    self.answer(&req, err)
                }
            },
            Phase::AwaitSent => {
                self.phase = Phase::AwaitHeader;
                Action::ReceiveHeader
            },
        }
    }
}


// ---------------------------------------------------------------------------
// Laws of the framing
// ---------------------------------------------------------------------------

proof fn lemma_from_bytes_prefix(b: Seq<u8>, c: Seq<u8>)
    requires
        b.len() >= HDR_LEN,
        c.len() >= HDR_LEN,
        forall|i: int| 0 <= i < HDR_LEN ==> b[i] == c[i],
    ensures
        Header::spec_from_bytes(b) == Header::spec_from_bytes(c),
{
    assert(b[0] == c[0] && b[1] == c[1] && b[2] == c[2] && b[3] == c[3]);
    assert(b[4] == c[4] && b[5] == c[5] && b[6] == c[6] && b[7] == c[7]);
    assert(b[8] == c[8] && b[9] == c[9] && b[10] == c[10] && b[11] == c[11]);
    assert(b[12] == c[12] && b[13] == c[13] && b[14] == c[14] && b[15] == c[15]);
}

/// Every response frame starts with a header that reads back as the
/// response header: it is valid, echoes the command, sequence number and
/// chunk index of the request it answers, and carries the status and
/// `arg1` it reports.
pub proof fn lemma_response_frame_header(req: Header, status: i32, arg1: u32, payload: Seq<u8>)
    ensures
        spec_frame(req, status, arg1, payload).len() >= HDR_LEN,
        spec_block_frame(req, status, arg1, payload).len() >= HDR_LEN,
        Header::spec_from_bytes(spec_frame(req, status, arg1, payload)) == response_header(
            req,
            status,
            arg1,
        ),
        Header::spec_from_bytes(spec_block_frame(req, status, arg1, payload)) == response_header(
            req,
            status,
            arg1,
        ),
        response_header(req, status, arg1).spec_is_valid(),
        response_header(req, status, arg1).cmd == req.cmd,
        response_header(req, status, arg1).seq == req.seq,
        response_header(req, status, arg1).reserved == req.reserved,
        response_header(req, status, arg1).arg1 == arg1,
        crate::spi_link::protocol::word_status(response_header(req, status, arg1).arg0) == status,
{
    let h = response_header(req, status, arg1);
    crate::spi_link::protocol::lemma_header_roundtrip(h);
    let f = spec_frame(req, status, arg1, payload);
    let g = spec_block_frame(req, status, arg1, payload);
    assert forall|i: int| 0 <= i < HDR_LEN implies f[i] == h.spec_to_bytes()[i] by {}
    assert forall|i: int| 0 <= i < HDR_LEN implies g[i] == h.spec_to_bytes()[i] by {}
    lemma_from_bytes_prefix(f, h.spec_to_bytes());
    lemma_from_bytes_prefix(g, h.spec_to_bytes());
}

/// A frame that carries blocks holds, after its header, exactly the data
/// and then the CRC-32 of the data; so the receiver's CRC check accepts it.
pub proof fn lemma_block_frame_payload(req: Header, status: i32, arg1: u32, data: Seq<u8>)
    requires
        data.len() > 0,
    ensures
        ({
            let f = spec_block_frame(req, status, arg1, data);
            let n = data.len() as int;
            &&& f.len() == HDR_LEN + n + CRC_LEN
            &&& f.subrange(HDR_LEN as int, HDR_LEN + n) == data
            &&& u32_from_le(f[HDR_LEN + n], f[HDR_LEN + n + 1], f[HDR_LEN + n + 2], f[HDR_LEN + n + 3])
                == spec_crc32(data)
        }),
{
    let h = response_header(req, status, arg1);
    crate::spi_link::protocol::lemma_header_roundtrip(h);
    crate::spi_link::protocol::lemma_le32_roundtrip(spec_crc32(data));
    let f = spec_block_frame(req, status, arg1, data);
    let n = data.len() as int;
    assert(f.subrange(HDR_LEN as int, HDR_LEN + n) =~= data);
}

/// A write payload followed by its own CRC-32 passes the check of
/// `serves_payload`; any other trailer is refused with
/// `ESP_ERR_INVALID_CRC`.
pub proof fn lemma_framed_payload_passes_crc(data: Seq<u8>, trailer: u32)
    ensures
        ({
            let d = data + le32(trailer);
            &&& d.len() == data.len() + CRC_LEN
            &&& (received_crc(d, data.len() as int) == spec_crc32(d.take(data.len() as int))
                <==> trailer == spec_crc32(data))
        }),
{
    let d = data + le32(trailer);
    let n = data.len() as int;
    crate::spi_link::protocol::lemma_le32_roundtrip(trailer);
    assert(d.take(n) =~= data);
    assert(d[n] == le32(trailer)[0] && d[n + 1] == le32(trailer)[1] && d[n + 2] == le32(trailer)[2]
        && d[n + 3] == le32(trailer)[3]);
}

/// A write payload that carries its own CRC-32, for a chunk that passes the
/// transfer checks on the open drive, is written: exactly the WRITE(10) that
/// the checks produced is issued, on the payload's bytes.
pub proof fn lemma_intact_write_is_issued(
    req: Header,
    lba: u32,
    nb: u32,
    data: Seq<u8>,
    u: UsbMassStorage,
    l: SpiLink,
    a: Action,
)
    requires
        data.len() <= MAX_PAYLOAD,
        u.spec_check_transfer(lba, nb, data.len()) is Ok,
        serves_payload(
            req,
            lba,
            nb,
            data.len() as usize,
            data + le32(spec_crc32(data)),
            Some(u),
            l,
            a,
        ),
    ensures
        a == (Action::WriteBlocks {
            transfer: u.spec_check_transfer(lba, nb, data.len())->Ok_0,
            len: data.len() as usize,
        }),
        l.phase == (Phase::AwaitWrite { req, len: data.len() as usize }),
{
    lemma_framed_payload_passes_crc(data, spec_crc32(data));
}


/// The status byte of a `GetStatus` answer tells the master the truth: 0
/// when no device is open, 1 when one is open but its capacity is unknown
/// (no probe is made then), and after a TEST UNIT READY probe 2 exactly when
/// the probe answered `ESP_OK`, else 1.
pub proof fn lemma_get_status_byte(req: Header, u: UsbMassStorage, l: SpiLink, a: Action, err: i32)
    requires
        req.spec_is_valid(),
        req.cmd == Cmd::GetStatus.spec_code(),
        serves_request(req, Some(u), l, a),
    ensures
        u.handle == 0 ==> answers(l, a, spec_frame(req, ESP_OK, 0, seq![0u8])),
        u.handle != 0 && (u.block_size == 0 || u.block_count == 0) ==> answers(
            l,
            a,
            spec_frame(req, ESP_OK, 0, seq![1u8]),
        ),
        u.handle != 0 && u.block_size != 0 && u.block_count != 0 ==> a == (Action::TestUnitReady {
            handle: u.handle,
        }) && l.phase == (Phase::AwaitUnitReady { req }),
        u.handle != 0 && u.block_size != 0 && u.block_count != 0 ==> (probed_status_code(Some(u), err)
            == 2 <==> err == ESP_OK),
        u.handle != 0 && u.block_size != 0 && u.block_count != 0 && err != ESP_OK ==> probed_status_code(
            Some(u),
            err,
        ) == 1,
        probed_status_code(None, err) == 0,
{
}

} // verus!
