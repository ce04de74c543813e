//! The block-device view of the drive that the SPI link serves: its status,
//! its capacity, and the checks that a block transfer must pass before the
//! SCSI command is issued.

use vstd::prelude::*;

use crate::esp_err::{ESP_ERR_INVALID_ARG, ESP_ERR_INVALID_STATE, ESP_OK};
use crate::usb_mass_storage::driver::UsbMassStorage;

verus! {

/// Readiness of the physical block device, as reported to the master.
#[derive(Clone, Copy, Debug, PartialEq, Eq, Structural)]
pub enum BlockDevStatus {
    NotPresent,
    NotReady,
    Ready,
}

impl BlockDevStatus {
    /// The status byte sent to the master: 0, 1 or 2.
    pub open spec fn spec_code(self) -> u8 {
        match self {
            BlockDevStatus::NotPresent => 0,
            BlockDevStatus::NotReady => 1,
            BlockDevStatus::Ready => 2,
        }
    }

    /// The status byte sent to the master: 0, 1 or 2.
    pub fn code(self) -> (c: u8)
        ensures
            c == self.spec_code(),
    {
        match self {
            BlockDevStatus::NotPresent => 0,
            BlockDevStatus::NotReady => 1,
            BlockDevStatus::Ready => 2,
        }
    }
}

/// Distinct statuses are sent as distinct bytes.
pub proof fn lemma_status_code_injective(a: BlockDevStatus, b: BlockDevStatus)
    ensures
        a.spec_code() == b.spec_code() <==> a == b,
{
}

/// The answer of the drive to SCSI READ CAPACITY.
#[derive(Clone, Copy, Debug, PartialEq, Eq, Structural)]
pub struct CapacityReply {
    pub err: i32,
    pub block_size: u32,
    pub block_count: u32,
}

/// A checked SCSI READ(10) or WRITE(10) to issue on the open device.
#[derive(Clone, Copy, Debug, PartialEq, Eq, Structural)]
pub struct ScsiTransfer {
    pub handle: usize,
    pub lba: u32,
    pub nblocks: u32,
    pub block_size: u32,
}

impl UsbMassStorage {
    /// Whether the block size and block count are known.
    pub open spec fn capacity_known(self) -> bool {
        self.block_size != 0 && self.block_count != 0
    }

    /// Whether the status depends on the drive's answer to TEST UNIT READY:
    /// a device is open and its capacity is known.
    pub open spec fn spec_unit_ready_needed(self) -> bool {
        self.handle != 0 && self.capacity_known()
    }

    /// The status, given the drive's answer to TEST UNIT READY where one
    /// is needed.
    pub open spec fn spec_bd_status(self, unit_ready: Option<i32>) -> BlockDevStatus {
        if self.handle == 0 {
            BlockDevStatus::NotPresent
        } else if !self.capacity_known() {
            BlockDevStatus::NotReady
        } else if unit_ready == Some(ESP_OK) {
            BlockDevStatus::Ready
        } else {
            BlockDevStatus::NotReady
        }
    }

    /// The outcome of checking a transfer of `nblocks` blocks from `lba`
    /// with a buffer of `len` bytes.
    pub open spec fn spec_check_transfer(self, lba: u32, nblocks: u32, len: nat) -> Result<
        ScsiTransfer,
        i32,
    > {
        if self.handle == 0 {
            Err(ESP_ERR_INVALID_STATE)
        } else if nblocks == 0 {
            Err(ESP_ERR_INVALID_ARG)
        } else if !self.capacity_known() {
            Err(ESP_ERR_INVALID_STATE)
        } else if lba + nblocks > self.block_count {
            Err(ESP_ERR_INVALID_ARG)
        } else if len != nblocks * self.block_size {
            Err(ESP_ERR_INVALID_ARG)
        } else {
            Ok(ScsiTransfer { handle: self.handle, lba, nblocks, block_size: self.block_size })
        }
    }

    /// Whether the status depends on the drive's answer to TEST UNIT READY.
    pub fn unit_ready_needed(&self) -> (r: bool)
        ensures
            r == self.spec_unit_ready_needed(),
    {
        self.handle != 0 && self.block_size != 0 && self.block_count != 0
    }

    /// Whether the capacity must be read before a block transfer.
    pub fn capacity_unknown(&self) -> (r: bool)
        ensures
            r == !self.capacity_known(),
    {
        self.block_size == 0 || self.block_count == 0
    }

    /// The drive's status: `NotPresent` with no open device, `NotReady`
    /// while its capacity is unknown, else `Ready` exactly when it answered
    /// TEST UNIT READY with `ESP_OK`.
    pub fn bd_status(&self, unit_ready: Option<i32>) -> (st: BlockDevStatus)
        requires
            self.spec_unit_ready_needed() ==> unit_ready is Some,
        ensures
            st == self.spec_bd_status(unit_ready),
    {
        if self.handle == 0 {
            return BlockDevStatus::NotPresent;
        }
        if self.block_size == 0 || self.block_count == 0 {
            return BlockDevStatus::NotReady;
        }
        match unit_ready {
            Some(err) => if err == ESP_OK {
                BlockDevStatus::Ready
            } else {
                BlockDevStatus::NotReady
            },
            None => BlockDevStatus::NotReady,
        }
    }

    /// Applies the drive's answer to READ CAPACITY. With no open device it
    /// fails with `ESP_ERR_INVALID_STATE` and no command is issued; a failed
    /// command leaves the cache unchanged and returns its error; otherwise
    /// the capacity is cached and returned.
    pub fn bd_refresh_capacity(&mut self, reply: Option<CapacityReply>) -> (r: Result<
        (u32, u32),
        i32,
    >)
        requires
            old(self).handle != 0 ==> reply is Some,
        ensures
            old(self).handle == 0 ==> r == Err::<(u32, u32), i32>(ESP_ERR_INVALID_STATE)
                && *final(self) == *old(self),
            old(self).handle != 0 && reply.unwrap().err != ESP_OK ==> r == Err::<(u32, u32), i32>(
                reply.unwrap().err,
            ) && *final(self) == *old(self),
            old(self).handle != 0 && reply.unwrap().err == ESP_OK ==> r == Ok::<(u32, u32), i32>(
                (reply.unwrap().block_size, reply.unwrap().block_count),
            ) && *final(self) == (UsbMassStorage {
                block_size: reply.unwrap().block_size,
                block_count: reply.unwrap().block_count,
                ..*old(self)
            }),
    {
        if self.handle == 0 {
            return Err(ESP_ERR_INVALID_STATE);
        }
        let rep = reply.unwrap();
        if rep.err != ESP_OK {
            return Err(rep.err);
        }
        self.block_count = rep.block_count;
        self.block_size = rep.block_size;
        Ok((rep.block_size, rep.block_count))
    }

    fn check_transfer(&self, lba: u32, nblocks: u32, len: usize) -> (r: Result<ScsiTransfer, i32>)
        ensures
            r == self.spec_check_transfer(lba, nblocks, len as nat),
    {
        if self.handle == 0 {
            return Err(ESP_ERR_INVALID_STATE);
        }
        if nblocks == 0 {
            return Err(ESP_ERR_INVALID_ARG);
        }
        if self.block_size == 0 || self.block_count == 0 {
            return Err(ESP_ERR_INVALID_STATE);
        }
        let end: u64 = lba as u64 + nblocks as u64;
        if end > self.block_count as u64 {
            return Err(ESP_ERR_INVALID_ARG);
        }
        assert((nblocks as u64) * (self.block_size as u64) <= 0xffff_ffff_ffff_ffffu64)
            by (nonlinear_arith);
        let need: u64 = (nblocks as u64) * (self.block_size as u64);
        if len as u64 != need {
            return Err(ESP_ERR_INVALID_ARG);
        }
        Ok(ScsiTransfer { handle: self.handle, lba, nblocks, block_size: self.block_size })
    }

    /// Checks a SCSI READ(10) of `nblocks` blocks from `lba` into a buffer
    /// of `out_len` bytes, and returns the command to issue. It fails with
    /// `ESP_ERR_INVALID_STATE` with no open device or an unknown capacity,
    /// and with `ESP_ERR_INVALID_ARG` for zero blocks, a range past the end
    /// of the drive, or a buffer that does not hold exactly the blocks.
    pub fn bd_read_blocks(&self, lba: u32, nblocks: u32, out_len: usize) -> (r: Result<
        ScsiTransfer,
        i32,
    >)
        ensures
            r == self.spec_check_transfer(lba, nblocks, out_len as nat),
    {
        self.check_transfer(lba, nblocks, out_len)
    }

    /// Checks a SCSI WRITE(10) of `nblocks` blocks at `lba` from a buffer of
    /// `data_len` bytes, and returns the command to issue; it fails on the
    /// same inputs as `bd_read_blocks`.
    pub fn bd_write_blocks(&self, lba: u32, nblocks: u32, data_len: usize) -> (r: Result<
        ScsiTransfer,
        i32,
    >)
        ensures
            r == self.spec_check_transfer(lba, nblocks, data_len as nat),
    {
        self.check_transfer(lba, nblocks, data_len)
    }

    /// Flushes the drive: it has no explicit sync, so this only fails with
    /// `ESP_ERR_INVALID_STATE` when no device is open.
    pub fn bd_flush(&self) -> (r: Result<(), i32>)
        ensures
            r == (if self.handle == 0 {
                Err::<(), i32>(ESP_ERR_INVALID_STATE)
            } else {
                Ok(())
            }),
    {
        if self.handle == 0 {
            return Err(ESP_ERR_INVALID_STATE);
        }
        Ok(())
    }
}

/// A transfer that passes the checks stays on the drive, moves at least one
/// block, has a buffer of exactly its blocks, and goes to the open device.
pub proof fn lemma_checked_transfer_in_range(s: UsbMassStorage, lba: u32, nblocks: u32, len: nat)
    requires
        s.spec_check_transfer(lba, nblocks, len) is Ok,
    ensures
        ({
            let t = s.spec_check_transfer(lba, nblocks, len)->Ok_0;
            &&& t.handle == s.handle && t.handle != 0
            &&& t.lba == lba && t.nblocks == nblocks && t.nblocks > 0
            &&& t.lba + t.nblocks <= s.block_count
            &&& len == t.nblocks * t.block_size && t.block_size == s.block_size
        }),
{
}


/// The drive is reported `Ready` exactly when a device is open, its
/// capacity is known and it answered TEST UNIT READY with `ESP_OK`; any
/// other answer (every error code) leaves it `NotReady`; and it is reported
/// `NotPresent` exactly when no device is open.
pub proof fn lemma_status_ready_only_on_ok(s: UsbMassStorage, unit_ready: Option<i32>)
    ensures
        s.spec_bd_status(unit_ready) == BlockDevStatus::Ready <==> (s.handle != 0
            && s.block_size != 0 && s.block_count != 0 && unit_ready == Some(ESP_OK)),
        s.spec_bd_status(unit_ready) == BlockDevStatus::NotPresent <==> s.handle == 0,
        forall|err: i32|
            err != ESP_OK ==> s.spec_bd_status(Some(err)) != BlockDevStatus::Ready,
{
}

} // verus!
