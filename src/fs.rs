//! The portable surface: open options with a builder, and files.

use vstd::prelude::*;
use crate::error::Error;
use crate::os::fd::{AsRawFd, FromRawFd, HandleState, IntoRawFd, RawFd, disown_step, release_step};
use crate::sys::fd::{Transfer, transfer_count};
use crate::sys::fs as fs_imp;
use crate::sys::fs::{OpenRequest, OptionsModel, SeekFrom, SeekRequest, open_plan, seek_args};

verus! {

/// An open file. Reads, writes and seeks need only a shared reference.
pub struct File {
    inner: fs_imp::File,
}

impl View for File {
    type V = HandleState;

    closed spec fn view(&self) -> HandleState {
        self.inner@
    }
}

impl File {
    /// Takes the result of the open call that `OpenOptions::open` asked for:
    /// a negative result is the kernel's error, any other is the descriptor
    /// the new file owns.
    pub fn opened(ret: i32, errno: i32) -> (r: Result<File, Error>)
        ensures
            ret < 0 ==> r == Err::<File, Error>(Error::Os(errno)),
            ret >= 0 ==> r is Ok && r->Ok_0@ == HandleState::Owning(ret),
    {
        match fs_imp::File::opened(ret, errno) {
            Ok(inner) => Ok(File { inner }),
            Err(e) => Err(e),
        }
    }

    /// Ends ownership for an explicit close: returns the descriptor to close,
    /// and scope exit will not close it again.
    pub fn close(&mut self) -> (fd: RawFd)
        ensures
            fd == old(self)@.fd(),
            final(self)@ == disown_step(old(self)@),
    {
        self.inner.close()
    }

    /// The read call that fills a buffer of `len` bytes.
    pub fn read(&self, len: usize) -> (t: Transfer)
        ensures
            t.fd == self@.fd(),
            t.count == transfer_count(len),
    {
        self.inner.read(len)
    }

    /// The write call that sends a buffer of `len` bytes.
    pub fn write(&self, len: usize) -> (t: Transfer)
        ensures
            t.fd == self@.fd(),
            t.count == transfer_count(len),
    {
        self.inner.write(len)
    }

    /// The seek call that moves the offset to `pos`.
    pub fn seek(&self, pos: SeekFrom) -> (s: SeekRequest)
        ensures
            s.fd == self@.fd(),
            (s.offset, s.whence) == seek_args(pos),
    {
        self.inner.seek(pos)
    }

    /// Nothing is buffered, so flushing always succeeds.
    pub fn flush(&self) -> (r: Result<(), Error>)
        ensures
            r == Ok::<(), Error>(()),
    {
        self.inner.flush()
    }

    /// The scope-exit hook; see `OwnedFd::release`.
    pub fn release(&mut self) -> (r: Option<RawFd>)
        ensures
            (r, final(self)@) == release_step(old(self)@),
    {
        self.inner.release()
    }

    /// Whether scope exit still owes a close.
    pub fn is_owning(&self) -> (r: bool)
        ensures
            r == self@.is_owning(),
    {
        self.inner.is_owning()
    }
}

impl AsRawFd for File {
    open spec fn raw_fd(&self) -> RawFd {
        self@.fd()
    }

    fn as_raw_fd(&self) -> (fd: RawFd) {
        self.inner.as_raw_fd()
    }
}

impl FromRawFd for File {
    fn from_raw(fd: RawFd) -> (r: Self)
        ensures
            r@ == HandleState::Owning(fd),
    {
        File { inner: fs_imp::File::from_raw(fd) }
    }
}

impl IntoRawFd for File {
    fn into_raw_fd(self) -> (fd: RawFd)
        ensures
            fd == self@.fd(),
    {
        self.inner.into_raw_fd()
    }
}

/// How a file is to be opened: access, creation, truncation and the
/// permission bits of a created file.
pub struct OpenOptions(fs_imp::OpenOptions);

impl View for OpenOptions {
    type V = OptionsModel;

    closed spec fn view(&self) -> OptionsModel {
        self.0@
    }
}

impl OpenOptions {
    /// No access, no creation, no truncation, and the default mode.
    pub fn new() -> (r: Self)
        ensures
            r@ == (OptionsModel {
                read: false,
                write: false,
                truncate: false,
                create: false,
                mode: fs_imp::DEFAULT_MODE,
            }),
    {
        OpenOptions(fs_imp::OpenOptions::new())
    }

    pub fn read(&mut self, read: bool) -> (r: &mut Self)
        ensures
            r@ == (OptionsModel { read, ..old(self)@ }),
            *final(self) == *final(r),
    {
        self.0.read(read);
        self
    }

    pub fn write(&mut self, write: bool) -> (r: &mut Self)
        ensures
            r@ == (OptionsModel { write, ..old(self)@ }),
            *final(self) == *final(r),
    {
        self.0.write(write);
        self
    }

    pub fn truncate(&mut self, truncate: bool) -> (r: &mut Self)
        ensures
            r@ == (OptionsModel { truncate, ..old(self)@ }),
            *final(self) == *final(r),
    {
        self.0.truncate(truncate);
        self
    }

    pub fn create(&mut self, create: bool) -> (r: &mut Self)
        ensures
            r@ == (OptionsModel { create, ..old(self)@ }),
            *final(self) == *final(r),
    {
        self.0.create(create);
        self
    }

    pub fn mode(&mut self, mode: u32) -> (r: &mut Self)
        ensures
            r@ == (OptionsModel { mode, ..old(self)@ }),
            *final(self) == *final(r),
    {
        self.0.mode(mode);
        self
    }

    /// The open call for `path`: fails with the path error when `path`
    /// holds a NUL byte; otherwise with the configuration error when no
    /// access is asked for, or creation or truncation without write access.
    /// No call is to be issued then.
    pub fn open(&self, path: &[u8]) -> (r: Result<OpenRequest, Error>)
        ensures
            match open_plan(path@, self@) {
                Ok((p, flags, mode)) => r is Ok && r->Ok_0.path@ == p && r->Ok_0.flags == flags
                    && r->Ok_0.mode == mode,
                Err(e) => r == Err::<OpenRequest, Error>(e),
            },
    {
        fs_imp::File::open(path, &self.0)
    }
}

impl Default for OpenOptions {
    fn default() -> (r: Self)
        ensures
            r@ == (OptionsModel {
                read: false,
                write: false,
                truncate: false,
                create: false,
                mode: fs_imp::DEFAULT_MODE,
            }),
    {
        OpenOptions::new()
    }
}

} // verus!
