//! A safe wrapper around a Linux eventfd: a kernel-maintained 64-bit event
//! counter used for lightweight signaling between threads and processes.
//!
//! An `EventFd` owns exactly one descriptor referring to a kernel counter.
//! `write` adds to the counter, `read` blocks until it is non-zero and then
//! atomically drains it to zero, `try_read` first performs a zero-timeout
//! readiness check and never blocks, and `try_clone` duplicates the handle so
//! that both handles refer to the same underlying kernel counter.
//!
//! The kernel counter itself lives outside this process, so the contracts
//! track it through a ghost model: each handle carries the counter value it
//! would observe, together with an exclusivity flag. While a handle is
//! exclusive (freshly created and never duplicated, with its descriptor not
//! handed to any other writer), every kernel update to the counter goes
//! through that handle, so the model is exact and the contracts pin down the
//! value of every operation. Once a handle has been duplicated the counter is
//! shared, and the contracts state only what holds of every outcome.

use vstd::prelude::*;

pub mod laws;

verus! {

/// The largest value the kernel counter can hold. An addition that would push
/// the counter past this bound blocks until a reader drains the counter.
pub const MAX_COUNTER: u64 = 0xffff_ffff_ffff_fffe;

/// The counter value after adding `v` to a counter holding `count`.
pub open spec fn counter_after_write(count: nat, v: u64) -> nat {
    count + v as nat
}

/// The value a successful drain (blocking or non-blocking) returns when the
/// counter holds `count`.
pub open spec fn drained_value(count: nat) -> u64 {
    count as u64
}

/// The counter value after a successful drain: always zero.
pub open spec fn counter_after_drain(count: nat) -> nat {
    0
}

/// The errors that may occur while working with an `EventFd`. Every operating
/// system failure carries the raw OS error code that caused it.
#[derive(Clone, Copy, Debug, PartialEq, Eq, Structural)]
pub enum Error {
    /// The kernel could not allocate a new counter object.
    CreationFailed(i32),
    /// The add operation failed at the I/O level.
    WriteFailed(i32),
    /// A blocking or non-blocking read failed at the I/O level.
    ReadFailed(i32),
    /// Duplicating the handle failed.
    CloneFailed(i32),
    /// The counter is currently zero, so there is nothing to read yet. This is
    /// a normal polling outcome, not a fault.
    NotReady,
}

/// A handle that owns one descriptor referring to a kernel event counter.
pub struct EventFd {
    fd: i32,
    count: Ghost<nat>,
    excl: Ghost<bool>,
}

impl View for EventFd {
    type V = nat;

    /// The modeled value of the kernel counter this handle refers to: exact
    /// while the handle is exclusive, frozen (advisory only) once the
    /// counter is shared with a duplicate.
    closed spec fn view(&self) -> nat {
        self.count@
    }
}

impl EventFd {
    /// Whether this handle is the only one referring to its kernel counter,
    /// so that the modeled counter value is exact.
    pub closed spec fn exclusive(&self) -> bool {
        self.excl@
    }

    /// The raw descriptor, for stating what `as_raw_fd` returns.
    pub closed spec fn raw_fd(&self) -> i32 {
        self.fd
    }

    /// Well-formedness: the descriptor is valid-looking and the modeled
    /// counter value fits the kernel counter's range.
    pub closed spec fn wf(&self) -> bool {
        self.fd >= 0 && self.count@ <= MAX_COUNTER
    }

    /// Creates a new blocking `EventFd` whose counter starts at 0.
    pub fn new() -> (r: Result<EventFd, Error>)
        ensures
            r matches Ok(e) ==> e.wf() && e@ == 0 && e.exclusive(),
            r matches Err(err) ==> err matches Error::CreationFailed(_),
    {
        match sys_eventfd_create() {
            Ok(fd) => Ok(EventFd { fd, count: Ghost(0nat), excl: Ghost(true) }),
            Err(e) => Err(Error::CreationFailed(e)),
        }
    }

    /// Adds `v` to the counter, blocking (inside the kernel) while the
    /// addition would push the counter past `MAX_COUNTER`, until a reader
    /// drains it. Adding `u64::MAX` is rejected by the kernel.
    pub fn write(&mut self, v: u64) -> (r: Result<(), Error>)
        requires
            old(self).wf(),
        ensures
            final(self).wf(),
            final(self).exclusive() == old(self).exclusive(),
            final(self).raw_fd() == old(self).raw_fd(),
            r matches Err(e) ==> (e matches Error::WriteFailed(_) && final(self)@ == old(self)@),
            old(self).exclusive() ==> (r matches Ok(_) ==> (final(self)@ == counter_after_write(
                old(self)@,
                v,
            ) && counter_after_write(old(self)@, v) <= MAX_COUNTER)),
            !old(self).exclusive() ==> final(self)@ == old(self)@,
            old(self).exclusive() && v < u64::MAX && counter_after_write(old(self)@, v)
                <= MAX_COUNTER ==> r matches Ok(_),
            v == u64::MAX ==> r matches Err(_),
    {
        match self.sys_add(v) {
            Ok(()) => Ok(()),
            Err(e) => Err(Error::WriteFailed(e)),
        }
    }

    /// Blocks until the counter is non-zero, then atomically captures its
    /// value, resets it to zero, and returns the captured value.
    pub fn read(&mut self) -> (r: Result<u64, Error>)
        requires
            old(self).wf(),
        ensures
            final(self).wf(),
            final(self).exclusive() == old(self).exclusive(),
            final(self).raw_fd() == old(self).raw_fd(),
            r matches Ok(v) ==> v > 0,
            r matches Err(e) ==> (e matches Error::ReadFailed(_) && final(self)@ == old(self)@),
            old(self).exclusive() ==> (r matches Ok(v) ==> (v == drained_value(old(self)@)
                && final(self)@ == counter_after_drain(old(self)@))),
            old(self).exclusive() && old(self)@ > 0 ==> r matches Ok(_),
    {
        match self.sys_drain() {
            Ok(v) => Ok(v),
            Err(e) => Err(Error::ReadFailed(e)),
        }
    }

    /// Non-blocking read: first performs a zero-timeout readiness check, and
    /// only drains the counter when the check reports it non-zero. Returns
    /// `NotReady` (a normal polling outcome, never a fault) when the counter
    /// is zero, and never blocks.
    pub fn try_read(&mut self) -> (r: Result<u64, Error>)
        requires
            old(self).wf(),
        ensures
            final(self).wf(),
            final(self).exclusive() == old(self).exclusive(),
            final(self).raw_fd() == old(self).raw_fd(),
            r matches Ok(v) ==> v > 0,
            r matches Err(e) ==> ((e matches Error::NotReady || e matches Error::ReadFailed(_))
                && final(self)@ == old(self)@),
            old(self).exclusive() && old(self)@ == 0 ==> (r matches Err(e)
                && e matches Error::NotReady),
            old(self).exclusive() ==> (old(self)@ > 0 ==> (r matches Ok(v)
                && v == drained_value(old(self)@)
                && final(self)@ == counter_after_drain(old(self)@))),
    {
        match self.sys_poll_ready() {
            Ok(n) => {
                if n == 0 {
                    Err(Error::NotReady)
                } else {
                    match self.sys_drain() {
                        Ok(v) => Ok(v),
                        Err(e) => Err(Error::ReadFailed(e)),
                    }
                }
            },
            Err(e) => Err(Error::ReadFailed(e)),
        }
    }

    /// Duplicates the handle at the OS level. The new `EventFd` has its own
    /// descriptor but refers to the same underlying kernel counter, so writes
    /// and reads through either handle observe and mutate the same value;
    /// accordingly both handles are marked shared and the exact counter model
    /// no longer applies to either.
    pub fn try_clone(&mut self) -> (r: Result<EventFd, Error>)
        requires
            old(self).wf(),
        ensures
            final(self).wf(),
            final(self)@ == old(self)@,
            final(self).raw_fd() == old(self).raw_fd(),
            r matches Ok(other) ==> (other.wf() && !other.exclusive()
                && !final(self).exclusive()),
            r matches Err(e) ==> (e matches Error::CloneFailed(_) && final(self).exclusive()
                == old(self).exclusive()),
    {
        match self.sys_dup_handle() {
            Ok(fd) => {
                self.excl = Ghost(false);
                let other = EventFd { fd, count: Ghost(self.count@), excl: Ghost(false) };
                Ok(other)
            },
            Err(e) => Err(Error::CloneFailed(e)),
        }
    }

    /// The raw descriptor, so that an external readiness-multiplexing loop
    /// can watch this counter among other handles. Exposes the identifier
    /// only; ownership of the handle stays with this `EventFd`.
    pub fn as_raw_fd(&self) -> (r: i32)
        ensures
            r == self.raw_fd(),
            self.wf() ==> r >= 0,
    {
        self.fd
    }

    /// Relies on nix::unistd::write (the write(2) system call) on an eventfd
    /// descriptor with an 8-byte host-endian buffer holding `v`: the kernel
    /// atomically adds `v` to the counter, blocking while the sum would
    /// exceed the counter's maximum; once there is room the addition is
    /// applied and the call succeeds. A write of u64::MAX fails with EINVAL,
    /// and a write interrupted before it was applied adds nothing.
    #[verifier::external_body]
    fn sys_add(&mut self, v: u64) -> (r: Result<(), i32>)
        requires
            old(self).wf(),
        ensures
            final(self).wf(),
            final(self).raw_fd() == old(self).raw_fd(),
            final(self).exclusive() == old(self).exclusive(),
            r matches Err(_) ==> final(self)@ == old(self)@,
            !old(self).exclusive() ==> final(self)@ == old(self)@,
            old(self).exclusive() ==> (r matches Ok(_) ==> (final(self)@ == old(self)@ + v as nat
                && old(self)@ + v as nat <= MAX_COUNTER)),
            old(self).exclusive() && v < u64::MAX && old(self)@ + v as nat <= MAX_COUNTER
                ==> r matches Ok(_),
            v == u64::MAX ==> r matches Err(_),
    {
        match nix::unistd::write(self.fd, &v.to_ne_bytes()) {
            Ok(_) => Ok(()),
            Err(e) => Err(e as i32),
        }
    }

    /// Relies on nix::unistd::read (the read(2) system call) on a blocking
    /// eventfd descriptor with an 8-byte buffer: the call blocks until the
    /// counter is non-zero, then atomically hands out the counter's value as
    /// 8 host-endian bytes and resets the counter to zero. A successful read
    /// therefore never returns zero, and a failed read leaves the counter
    /// untouched.
    #[verifier::external_body]
    fn sys_drain(&mut self) -> (r: Result<u64, i32>)
        requires
            old(self).wf(),
        ensures
            final(self).wf(),
            final(self).raw_fd() == old(self).raw_fd(),
            final(self).exclusive() == old(self).exclusive(),
            r matches Ok(v) ==> v > 0,
            r matches Err(_) ==> final(self)@ == old(self)@,
            old(self).exclusive() ==> (r matches Ok(v) ==> (v == old(self)@ as u64
                && final(self)@ == 0)),
            old(self).exclusive() && old(self)@ > 0 ==> r matches Ok(_),
            !old(self).exclusive() ==> (r matches Ok(_) ==> final(self)@ == 0),
    {
        let mut buf: [u8; 8] = [0u8; 8];
        match nix::unistd::read(self.fd, &mut buf) {
            Ok(_) => Ok(u64::from_ne_bytes(buf)),
            Err(e) => Err(e as i32),
        }
    }

    /// Relies on nix::poll::poll (the poll(2) system call) with this
    /// descriptor, the readable-events mask, and a zero timeout: the call
    /// returns immediately with the number of ready descriptors, here 0 or
    /// 1, and an eventfd reports readable exactly when its counter is
    /// greater than zero. With a zero timeout the call never sleeps, so a
    /// single valid descriptor is checked and reported without error.
    #[verifier::external_body]
    fn sys_poll_ready(&self) -> (r: Result<i32, i32>)
        requires
            self.wf(),
        ensures
            r matches Ok(n) ==> 0 <= n <= 1,
            self.exclusive() ==> r is Ok,
            r matches Ok(n) ==> (self.exclusive() ==> ((n == 1) <==> self@ > 0)),
    {
        let mut fds = [nix::poll::PollFd::new(self.fd, nix::poll::PollFlags::POLLIN)];
        match nix::poll::poll(&mut fds, 0) {
            Ok(n) => Ok(n),
            Err(e) => Err(e as i32),
        }
    }

    /// Relies on nix::unistd::dup (the dup(2) system call): on success the
    /// kernel hands out a new nonnegative descriptor referring to the same
    /// underlying kernel object as this one.
    #[verifier::external_body]
    fn sys_dup_handle(&self) -> (r: Result<i32, i32>)
        requires
            self.wf(),
        ensures
            r matches Ok(fd) ==> fd >= 0,
    {
        match nix::unistd::dup(self.fd) {
            Ok(fd) => Ok(fd),
            Err(e) => Err(e as i32),
        }
    }
}

impl Drop for EventFd {
    /// Relies on nix::unistd::close (the close(2) system call): releases the
    /// descriptor this handle owns, exactly once, when the handle goes out
    /// of scope on any exit path. The kernel counter object itself persists
    /// while other duplicated handles remain open.
    #[verifier::external_body]
    fn drop(&mut self)
        opens_invariants none
        no_unwind
    {
        let _ = nix::unistd::close(self.fd);
    }
}

/// Relies on nix::sys::eventfd::eventfd (the eventfd(2) system call) with
/// initial value 0 and no flags: on success the kernel allocates a fresh
/// counter object holding 0, readable and writable in blocking mode, and
/// returns its nonnegative descriptor, the only descriptor referring to that
/// counter; on failure it returns the OS error code.
#[verifier::external_body]
fn sys_eventfd_create() -> (r: Result<i32, i32>)
    ensures
        r matches Ok(fd) ==> fd >= 0,
{
    match nix::sys::eventfd::eventfd(0, nix::sys::eventfd::EfdFlags::empty()) {
        Ok(fd) => Ok(fd),
        Err(e) => Err(e as i32),
    }
}

} // verus!
