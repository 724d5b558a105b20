//! Byte-level I/O on an owned descriptor.

use vstd::prelude::*;
use crate::error::Error;
use crate::os::fd::{AsRawFd, FromRawFd, HandleState, IntoRawFd, OwnedFd, RawFd, disown_step, release_step};

verus! {

/// The most bytes one read or write call may ask for: the largest count
/// the kernel's signed result can report.
pub const READ_LIMIT: usize = isize::MAX as usize;

/// The byte count of one transfer call for a buffer of `len` bytes. Larger
/// buffers are clamped, not split.
pub open spec fn transfer_count(len: usize) -> usize {
    if len < READ_LIMIT {
        len
    } else {
        READ_LIMIT
    }
}

/// What a read or write call that returned `ret`, with `errno` as the last
/// error, amounts to.
pub open spec fn transfer_outcome(ret: isize, errno: i32) -> Result<usize, Error> {
    if ret < 0 {
        Err(Error::Os(errno))
    } else {
        Ok(ret as usize)
    }
}

/// What a close call that returned `ret`, with `errno` as the last error,
/// amounts to.
pub open spec fn close_outcome(ret: i32, errno: i32) -> Result<(), Error> {
    if ret < 0 {
        Err(Error::Os(errno))
    } else {
        Ok(())
    }
}

/// A transfer call asks for the whole buffer when it is below the limit,
/// and never for more than the buffer holds nor more than the limit.
pub proof fn lemma_transfer_count_clamps(len: usize)
    ensures
        transfer_count(len) <= len,
        transfer_count(len) <= READ_LIMIT,
        len <= READ_LIMIT ==> transfer_count(len) == len,
{
}

/// A call that moved fewer bytes than asked, or none at all at end of
/// stream, is a success that reports that count, not an error.
pub proof fn lemma_short_transfer_is_success(ret: isize, asked: usize, errno: i32)
    requires
        0 <= ret < asked,
    ensures
        transfer_outcome(ret, errno) == Ok::<usize, Error>(ret as usize),
        (ret as usize) < asked,
{
}

/// One read or write call to issue: the descriptor and the byte count.
#[derive(Debug, Clone, Copy, PartialEq, Eq, Structural)]
pub struct Transfer {
    pub fd: RawFd,
    pub count: usize,
}

/// Interprets the result of a read or write call: a negative result is the
/// kernel's failure and carries `errno`; any other is the count moved, which
/// may be short of what was asked, and is zero at end of stream.
pub fn cvt_transfer(ret: isize, errno: i32) -> (r: Result<usize, Error>)
    ensures
        r == transfer_outcome(ret, errno),
{
    if ret < 0 {
        Err(Error::Os(errno))
    } else {
        Ok(ret as usize)
    }
}

/// Interprets the result of a close call.
pub fn cvt_close(ret: i32, errno: i32) -> (r: Result<(), Error>)
    ensures
        r == close_outcome(ret, errno),
{
    if ret < 0 {
        Err(Error::Os(errno))
    } else {
        Ok(())
    }
}

/// An owned descriptor that byte-level I/O goes through.
pub struct FileDesc(OwnedFd);

impl View for FileDesc {
    type V = HandleState;

    closed spec fn view(&self) -> HandleState {
        self.0@
    }
}

impl FileDesc {
    /// The read call that fills a buffer of `len` bytes.
    pub fn read(&self, len: usize) -> (t: Transfer)
        ensures
            t.fd == self@.fd(),
            t.count == transfer_count(len),
    {
        let count = if len < READ_LIMIT { len } else { READ_LIMIT };
        Transfer { fd: self.0.as_raw_fd(), count }
    }

    /// The write call that sends a buffer of `len` bytes.
    pub fn write(&self, len: usize) -> (t: Transfer)
        ensures
            t.fd == self@.fd(),
            t.count == transfer_count(len),
    {
        let count = if len < READ_LIMIT { len } else { READ_LIMIT };
        Transfer { fd: self.0.as_raw_fd(), count }
    }

    /// Ends ownership for an explicit close: returns the descriptor to close,
    /// and scope exit will not close it again.
    pub fn close(&mut self) -> (fd: RawFd)
        ensures
            fd == old(self)@.fd(),
            final(self)@ == disown_step(old(self)@),
    {
        self.0.disown()
    }

    /// The scope-exit hook; see `OwnedFd::release`.
    pub fn release(&mut self) -> (r: Option<RawFd>)
        ensures
            (r, final(self)@) == release_step(old(self)@),
    {
        self.0.release()
    }

    /// Whether scope exit still owes a close.
    pub fn is_owning(&self) -> (r: bool)
        ensures
            r == self@.is_owning(),
    {
        self.0.is_owning()
    }
}

impl AsRawFd for FileDesc {
    open spec fn raw_fd(&self) -> RawFd {
        self@.fd()
    }

    fn as_raw_fd(&self) -> (fd: RawFd) {
        self.0.as_raw_fd()
    }
}

impl FromRawFd for FileDesc {
    fn from_raw(fd: RawFd) -> (r: Self)
        ensures
            r@ == HandleState::Owning(fd),
    {
        FileDesc(OwnedFd::from_raw(fd))
    }
}

impl IntoRawFd for FileDesc {
    fn into_raw_fd(self) -> (fd: RawFd)
        ensures
            fd == self@.fd(),
    {
        self.0.into_raw_fd()
    }
}

} // verus!
