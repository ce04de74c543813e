//! Bookkeeping of the USB mass-storage drive: which device address waits to
//! be opened, how many attempts are left, which device and file-system
//! handles are open, the cached capacity, and the no-device watchdog.
//!
//! The USB host stack itself is driven by the caller. Device and VFS handles
//! are kept as plain addresses (`0` stands for "none"); each function here
//! decides from the stack's answers what the next state is and which
//! handles the caller must release.

use vstd::prelude::*;

use crate::esp_err::{ESP_ERR_INVALID_STATE, ESP_OK};
use crate::usb_mass_storage::block_device::CapacityReply;

verus! {

/// Number of attempts made to open a newly connected device.
pub const RETRY_COUNT: i32 = 3;

/// Whether an opened device also gets its FAT file system mounted (a
/// debugging aid, off in the firmware).
pub const DEBUG_VFS: bool = false;

/// How long, in milliseconds, no device may be seen before the drive's
/// power is cycled.
pub const WATCHDOG_MS: u64 = 2000;

/// An event of the USB mass-storage class driver.
#[derive(Clone, Copy, Debug, PartialEq, Eq, Structural)]
pub enum MscEvent {
    /// A device was enumerated at this USB address.
    Connected { addr: u8 },
    /// The device went away.
    Disconnected,
    /// Any other event code.
    Other(u32),
}

/// Handles that the caller must release, in this order: first unregister
/// the file system, then uninstall the device.
#[derive(Clone, Copy, Debug, PartialEq, Eq, Structural)]
pub struct Teardown {
    pub vfs: Option<usize>,
    pub handle: Option<usize>,
}

/// What to do after a step of opening a device.
#[derive(Clone, Copy, Debug, PartialEq, Eq, Structural)]
pub enum OpenStep {
    /// Nothing more.
    Idle,
    /// Issue READ CAPACITY to the device just opened, and hand the answer
    /// to `capacity_result`.
    ReadCapacity { handle: usize },
    /// Mount the file system of the device, and hand the outcome to
    /// `mount_result`.
    Mount { handle: usize },
}

/// The step that follows reading the capacity of the device `handle`.
pub open spec fn after_capacity_step(handle: usize) -> OpenStep {
    if DEBUG_VFS {
        OpenStep::Mount { handle }
    } else {
        OpenStep::Idle
    }
}

/// The state of the mass-storage driver.
pub struct UsbMassStorage {
    /// USB address of a device waiting to be opened, or -1.
    pub pending_addr: i32,
    /// Attempts left to open the pending device.
    pub retries_left: i32,
    /// Handle of the open device, 0 when none.
    pub handle: usize,
    /// Handle of the mounted file system, 0 when none.
    pub vfs: usize,
    /// Cached block size in bytes, 0 when unknown.
    pub block_size: u32,
    /// Cached number of blocks, 0 when unknown.
    pub block_count: u32,
    /// Time in milliseconds since which no device has been seen.
    pub no_device_since: Option<u64>,
}

/// The state after a device `addr` is connected: it waits to be opened with
/// a full set of attempts; nothing is open and the capacity is unknown.
pub open spec fn after_connected(s: UsbMassStorage, addr: u8) -> UsbMassStorage {
    UsbMassStorage {
        pending_addr: addr as i32,
        retries_left: RETRY_COUNT,
        handle: 0,
        vfs: 0,
        block_size: 0,
        block_count: 0,
        no_device_since: s.no_device_since,
    }
}

/// The state after the device is disconnected: nothing waits, nothing is
/// open and the capacity is unknown.
pub open spec fn after_disconnected(s: UsbMassStorage) -> UsbMassStorage {
    UsbMassStorage {
        pending_addr: -1i32,
        retries_left: 0,
        handle: 0,
        vfs: 0,
        block_size: 0,
        block_count: 0,
        no_device_since: s.no_device_since,
    }
}

/// The handles that a disconnection releases.
pub open spec fn teardown_of(s: UsbMassStorage) -> Teardown {
    Teardown {
        vfs: if s.vfs != 0 { Some(s.vfs) } else { None },
        handle: if s.handle != 0 { Some(s.handle) } else { None },
    }
}

impl UsbMassStorage {
    /// A driver with no device: nothing pending, nothing open.
    pub fn new() -> (s: Self)
        ensures
            s.pending_addr == -1,
            s.retries_left == 0,
            s.handle == 0,
            s.vfs == 0,
            s.block_size == 0,
            s.block_count == 0,
            s.no_device_since is None,
    {
        UsbMassStorage {
            pending_addr: -1i32,
            retries_left: 0,
            handle: 0,
            vfs: 0,
            block_size: 0,
            block_count: 0,
            no_device_since: None,
        }
    }

    /// Whether a file system is mounted.
    pub fn is_mounted(&self) -> (r: bool)
        ensures
            r == (self.vfs != 0),
    {
        self.vfs != 0
    }

    /// Whether a device is open.
    pub fn has_device(&self) -> (r: bool)
        ensures
            r == (self.handle != 0),
    {
        self.handle != 0
    }

    /// Reacts to a class-driver event. A connection records the device's
    /// address to be opened and forgets any previous device; a
    /// disconnection forgets the device and returns the handles to release;
    /// other events change nothing.
    pub fn handle_raw_event(&mut self, event: MscEvent) -> (t: Teardown)
        ensures
            match event {
                MscEvent::Connected { addr } => {
                    &&& *final(self) == after_connected(*old(self), addr)
                    &&& t == Teardown { vfs: None, handle: None }
                },
                MscEvent::Disconnected => {
                    &&& *final(self) == after_disconnected(*old(self))
                    &&& t == teardown_of(*old(self))
                },
                MscEvent::Other(_) => {
                    &&& *final(self) == *old(self)
                    &&& t == Teardown { vfs: None, handle: None }
                },
            },
    {
        match event {
            MscEvent::Connected { addr } => {
                self.pending_addr = addr as i32;
                self.retries_left = RETRY_COUNT;
                self.handle = 0;
                self.vfs = 0;
                self.block_size = 0;
                self.block_count = 0;
                Teardown { vfs: None, handle: None }
            },
            MscEvent::Disconnected => {
                let vfs = self.unmount_vfs();
                let handle = self.close_device();
                self.pending_addr = -1;
                self.retries_left = 0;
                self.block_size = 0;
                self.block_count = 0;
                Teardown { vfs, handle }
            },
            MscEvent::Other(_) => Teardown { vfs: None, handle: None },
        }
    }

    /// Forgets the open device; returns its handle for the caller to
    /// uninstall, if there was one.
    pub fn close_device(&mut self) -> (h: Option<usize>)
        ensures
            h == (if old(self).handle != 0 { Some(old(self).handle) } else { None::<usize> }),
            *final(self) == (UsbMassStorage { handle: 0, ..*old(self) }),
    {
        if self.handle != 0 {
            let h = self.handle;
            self.handle = 0;
            Some(h)
        } else {
            None
        }
    }

    /// Forgets the mounted file system; returns its handle for the caller
    /// to unregister, if there was one.
    pub fn unmount_vfs(&mut self) -> (v: Option<usize>)
        ensures
            v == (if old(self).vfs != 0 { Some(old(self).vfs) } else { None::<usize> }),
            *final(self) == (UsbMassStorage { vfs: 0, ..*old(self) }),
    {
        if self.vfs != 0 {
            let v = self.vfs;
            self.vfs = 0;
            Some(v)
        } else {
            None
        }
    }

    /// The USB address to try to open now: the pending device's, while
    /// attempts are left.
    pub fn open_attempt(&self) -> (r: Option<u8>)
        ensures
            r == (if attempt_allowed(*self) {
                Some(self.pending_addr as u8)
            } else {
                None::<u8>
            }),
    {
        if self.pending_addr < 0 || self.retries_left <= 0 {
            return None;
        }
        Some(self.pending_addr as u8)
    }

    /// Records the answer of the stack to an attempt to open the pending
    /// device. On success the device is open and nothing waits any more; a
    /// device that is not ready yet costs one attempt; any other error ends
    /// the attempts. Returns what to do next: read the capacity of a device
    /// that was opened; with no handle to read it from, mount at once when
    /// mounting is on (`DEBUG_VFS`), else nothing.
    pub fn open_result(&mut self, ret: i32, new_handle: usize) -> (next: OpenStep)
        requires
            attempt_allowed(*old(self)),
        ensures
            ret == ESP_OK ==> *final(self) == (UsbMassStorage {
                handle: new_handle,
                pending_addr: -1i32,
                retries_left: 0,
                ..*old(self)
            }),
            ret == ESP_ERR_INVALID_STATE ==> *final(self) == after_not_ready(*old(self)),
            ret != ESP_OK && ret != ESP_ERR_INVALID_STATE ==> *final(self) == (UsbMassStorage {
                pending_addr: -1i32,
                retries_left: 0,
                ..*old(self)
            }),
            next == (if ret != ESP_OK {
                OpenStep::Idle
            } else if new_handle != 0 {
                OpenStep::ReadCapacity { handle: new_handle }
            } else {
                after_capacity_step(new_handle)
            }),
    {
        if ret == ESP_OK {
            self.handle = new_handle;
            self.pending_addr = -1;
            self.retries_left = 0;
            if new_handle != 0 {
                OpenStep::ReadCapacity { handle: new_handle }
            } else {
                Self::mount_step(new_handle)
            }
        } else if ret == ESP_ERR_INVALID_STATE {
            self.retries_left = self.retries_left - 1;
            OpenStep::Idle
        } else {
            self.pending_addr = -1;
            self.retries_left = 0;
            OpenStep::Idle
        }
    }

    fn mount_step(handle: usize) -> (next: OpenStep)
        ensures
            next == after_capacity_step(handle),
    {
        if DEBUG_VFS {
            OpenStep::Mount { handle }
        } else {
            OpenStep::Idle
        }
    }

    /// Records the drive's answer to READ CAPACITY right after it was
    /// opened: the capacity is cached as `bd_refresh_capacity` does, its
    /// outcome is returned, and the next step is to mount the file system
    /// when mounting is on (`DEBUG_VFS`), else nothing.
    pub fn capacity_result(&mut self, rep: CapacityReply) -> (r: (Result<(u32, u32), i32>, OpenStep))
        ensures
            old(self).handle == 0 ==> r.0 == Err::<(u32, u32), i32>(ESP_ERR_INVALID_STATE)
                && *final(self) == *old(self),
            old(self).handle != 0 && rep.err != ESP_OK ==> r.0 == Err::<(u32, u32), i32>(rep.err)
                && *final(self) == *old(self),
            old(self).handle != 0 && rep.err == ESP_OK ==> r.0 == Ok::<(u32, u32), i32>(
                (rep.block_size, rep.block_count),
            ) && *final(self) == (UsbMassStorage {
                block_size: rep.block_size,
                block_count: rep.block_count,
                ..*old(self)
            }),
            r.1 == after_capacity_step(old(self).handle),
    {
        let res = self.bd_refresh_capacity(Some(rep));
        (res, Self::mount_step(self.handle))
    }

    /// Records the outcome of mounting the file system of a freshly opened
    /// device. On success the file system is mounted; on failure the device
    /// is closed (its handle is returned for the caller to uninstall) and
    /// the attempt counter drops by one.
    pub fn mount_result(&mut self, mounted: bool, vfs_handle: usize) -> (h: Option<usize>)
        requires
            old(self).retries_left > i32::MIN,
        ensures
            mounted ==> h is None && *final(self) == (UsbMassStorage { vfs: vfs_handle, ..*old(self) }),
            !mounted ==> h == (if old(self).handle != 0 {
                Some(old(self).handle)
            } else {
                None::<usize>
            }) && *final(self) == (UsbMassStorage {
                handle: 0,
                retries_left: (old(self).retries_left - 1) as i32,
                ..*old(self)
            }),
    {
        if mounted {
            self.vfs = vfs_handle;
            None
        } else {
            let h = self.close_device();
            self.retries_left = self.retries_left - 1;
            h
        }
    }

    /// Runs the no-device watchdog at time `now_ms`. While no device is
    /// open and none can be tried (none waits, or its attempts are used
    /// up), the first call starts the clock and a later call at least
    /// `WATCHDOG_MS` after it returns `true`: the caller must cycle the
    /// drive's power and then call `power_cycled`. As soon as a device is
    /// open or may be tried the clock stops. The transition is
    /// `watchdog_next`.
    pub fn watchdog(&mut self, now_ms: u64) -> (cycle: bool)
        ensures
            (*final(self), cycle) == watchdog_next(*old(self), now_ms),
    {
        if self.handle == 0 && (self.pending_addr < 0 || self.retries_left <= 0) {
            match self.no_device_since {
                None => {
                    self.no_device_since = Some(now_ms);
                    false
                },
                Some(since) => now_ms.saturating_sub(since) >= WATCHDOG_MS,
            }
        } else {
            self.no_device_since = None;
            false
        }
    }

    /// Restarts the watchdog clock after the drive's power was cycled.
    pub fn power_cycled(&mut self, now_ms: u64)
        ensures
            *final(self) == (UsbMassStorage { no_device_since: Some(now_ms), ..*old(self) }),
    {
        self.no_device_since = Some(now_ms);
    }
}

/// No device is open and none may be tried.
pub open spec fn no_usable_device(s: UsbMassStorage) -> bool {
    s.handle == 0 && !attempt_allowed(s)
}

/// The watchdog at time `now`: the next state and whether the drive's
/// power must be cycled.
pub open spec fn watchdog_next(s: UsbMassStorage, now: u64) -> (UsbMassStorage, bool) {
    if no_usable_device(s) {
        match s.no_device_since {
            None => (UsbMassStorage { no_device_since: Some(now), ..s }, false),
            Some(since) => (s, now >= since && now - since >= WATCHDOG_MS),
        }
    } else {
        (UsbMassStorage { no_device_since: None, ..s }, false)
    }
}

/// The state after an attempt to open the pending device was answered
/// "not ready yet": one attempt fewer.
pub open spec fn after_not_ready(s: UsbMassStorage) -> UsbMassStorage {
    UsbMassStorage { retries_left: (s.retries_left - 1) as i32, ..s }
}

/// Whether the pending device may be tried now.
pub open spec fn attempt_allowed(s: UsbMassStorage) -> bool {
    s.pending_addr >= 0 && s.retries_left > 0
}

/// The state after `k` attempts in a row were answered "not ready yet".
pub open spec fn after_not_ready_times(s: UsbMassStorage, k: nat) -> UsbMassStorage
    decreases k,
{
    if k == 0 {
        s
    } else {
        after_not_ready(after_not_ready_times(s, (k - 1) as nat))
    }
}

/// A connected device is tried exactly `RETRY_COUNT` times while it answers
/// "not ready yet": after `k` such answers a further attempt is made if and
/// only if `k < RETRY_COUNT` (no attempt, hence no answer, follows the
/// last one).
pub proof fn lemma_attempts_bounded(s: UsbMassStorage, addr: u8, k: nat)
    requires
        k <= RETRY_COUNT,
    ensures
        attempt_allowed(after_not_ready_times(after_connected(s, addr), k)) <==> k < RETRY_COUNT,
{
    lemma_not_ready_count(after_connected(s, addr), k);
}

proof fn lemma_not_ready_count(s: UsbMassStorage, k: nat)
    requires
        0 <= s.retries_left <= RETRY_COUNT,
        k <= s.retries_left,
    ensures
        after_not_ready_times(s, k).retries_left == s.retries_left - k,
        after_not_ready_times(s, k).pending_addr == s.pending_addr,
    decreases k,
{
    if k > 0 {
        lemma_not_ready_count(s, (k - 1) as nat);
    }
}

/// A device that answers "not ready yet" to every attempt gets its power
/// cycled: after a connection (a poll while it waits stops the watchdog
/// clock) and `RETRY_COUNT` such answers, the next poll starts the clock
/// and a poll `WATCHDOG_MS` later asks for a power cycle.
pub proof fn lemma_stuck_device_is_power_cycled(
    s: UsbMassStorage,
    addr: u8,
    t_wait: u64,
    t0: u64,
    t1: u64,
)
    requires
        t0 + WATCHDOG_MS <= t1,
    ensures
        ({
            let (waiting, c_wait) = watchdog_next(after_connected(s, addr), t_wait);
            let stuck = after_not_ready_times(waiting, RETRY_COUNT as nat);
            let (started, c0) = watchdog_next(stuck, t0);
            let (_, c1) = watchdog_next(started, t1);
            &&& !c_wait
            &&& !attempt_allowed(stuck)
            &&& stuck.handle == 0
            &&& !c0
            &&& c1
        }),
{
    let (waiting, _) = watchdog_next(after_connected(s, addr), t_wait);
    lemma_not_ready_count(waiting, RETRY_COUNT as nat);
    lemma_not_ready_keeps_rest(waiting, RETRY_COUNT as nat);
}

proof fn lemma_not_ready_keeps_rest(s: UsbMassStorage, k: nat)
    ensures
        after_not_ready_times(s, k).handle == s.handle,
        after_not_ready_times(s, k).no_device_since == s.no_device_since,
    decreases k,
{
    if k > 0 {
        lemma_not_ready_keeps_rest(s, (k - 1) as nat);
    }
}


/// A disconnection leaks no handle: a device open before it is handed back
/// for release whatever the file-system state, and so is a mounted file
/// system; afterwards neither is held. Nothing that was not open is handed
/// back.
pub proof fn lemma_disconnect_releases_everything(s: UsbMassStorage)
    ensures
        s.handle != 0 ==> teardown_of(s).handle == Some(s.handle),
        s.vfs != 0 ==> teardown_of(s).vfs == Some(s.vfs),
        s.handle == 0 ==> teardown_of(s).handle is None,
        s.vfs == 0 ==> teardown_of(s).vfs is None,
        after_disconnected(s).handle == 0,
        after_disconnected(s).vfs == 0,
{
}

/// The watchdog never touches a working drive: while a device is open it
/// asks for no power cycle and its clock is stopped. It asks for a power
/// cycle only when no device is open and its clock was started at least
/// `WATCHDOG_MS` earlier.
pub proof fn lemma_watchdog_spares_open_device(s: UsbMassStorage, now: u64)
    ensures
        s.handle != 0 ==> !watchdog_next(s, now).1 && watchdog_next(s, now).0.no_device_since is None,
        watchdog_next(s, now).1 ==> s.handle == 0 && s.no_device_since is Some && now
            >= s.no_device_since->0 && now - s.no_device_since->0 >= WATCHDOG_MS,
{
}

} // verus!
