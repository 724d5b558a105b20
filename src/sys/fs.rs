//! Files: open options turned into kernel flags, and I/O on an open file.

use vstd::prelude::*;
use crate::error::Error;
use crate::os::fd::{AsRawFd, FromRawFd, HandleState, IntoRawFd, RawFd, disown_step, release_step};
use crate::sys::fd::{FileDesc, Transfer, transfer_count};

verus! {

pub const O_RDONLY: i32 = 0;
pub const O_WRONLY: i32 = 1;
pub const O_RDWR: i32 = 2;
pub const O_CREAT: i32 = 64;
pub const O_TRUNC: i32 = 512;

pub const SEEK_SET: i32 = 0;
pub const SEEK_CUR: i32 = 1;
pub const SEEK_END: i32 = 2;

/// The permission bits a created file gets unless others are asked for.
pub const DEFAULT_MODE: u32 = 0o666;

/// The options of an open call, as plain values.
pub struct OptionsModel {
    pub read: bool,
    pub write: bool,
    pub truncate: bool,
    pub create: bool,
    pub mode: u32,
}

/// The access-mode flag for the options `o`, or the configuration error
/// when neither reading nor writing is asked for.
pub open spec fn access_mode(o: OptionsModel) -> Result<i32, Error> {
    if o.read && !o.write {
        Ok(O_RDONLY)
    } else if !o.read && o.write {
        Ok(O_WRONLY)
    } else if o.read && o.write {
        Ok(O_RDWR)
    } else {
        Err(Error::InvalidConfig)
    }
}

/// The creation flags for the options `o`, or the configuration error when
/// creation or truncation is asked for without write access.
pub open spec fn creation_mode(o: OptionsModel) -> Result<i32, Error> {
    if !o.write && (o.truncate || o.create) {
        Err(Error::InvalidConfig)
    } else if o.create && o.truncate {
        Ok(O_CREAT | O_TRUNC)
    } else if o.create {
        Ok(O_CREAT)
    } else if o.truncate {
        Ok(O_TRUNC)
    } else {
        Ok(0)
    }
}

/// Whether the options `o` can be turned into an open call at all.
pub open spec fn valid_options(o: OptionsModel) -> bool {
    access_mode(o) is Ok && creation_mode(o) is Ok
}

/// The flags of the open call for the valid options `o`.
pub open spec fn open_flags(o: OptionsModel) -> i32
    recommends
        valid_options(o),
{
    access_mode(o)->Ok_0 | creation_mode(o)->Ok_0
}

/// The path `p` as the kernel takes it: the bytes, then a terminating NUL.
pub open spec fn c_path(p: Seq<u8>) -> Seq<u8> {
    p.push(0u8)
}

/// What opening the path `p` with the options `o` amounts to before any
/// call is made: the call to issue, or why none is issued.
pub open spec fn open_plan(p: Seq<u8>, o: OptionsModel) -> Result<(Seq<u8>, i32, u32), Error> {
    if p.contains(0u8) {
        Err(Error::InvalidPath)
    } else if !valid_options(o) {
        Err(Error::InvalidConfig)
    } else {
        Ok((c_path(p), open_flags(o), o.mode))
    }
}

/// Whether `p` is already a path as the kernel takes it: a final NUL and
/// no NUL before it.
pub open spec fn is_c_path(p: Seq<u8>) -> bool {
    p.len() > 0 && p.last() == 0u8 && !p.drop_last().contains(0u8)
}

/// As `open_plan`, for a path that is meant to be NUL-terminated already.
pub open spec fn open_c_plan(p: Seq<u8>, o: OptionsModel) -> Result<(Seq<u8>, i32, u32), Error> {
    if !is_c_path(p) {
        Err(Error::InvalidPath)
    } else if !valid_options(o) {
        Err(Error::InvalidConfig)
    } else {
        Ok((p, open_flags(o), o.mode))
    }
}

/// Options that ask for neither reading nor writing are refused with the
/// configuration error, for every path that can be encoded, before any call
/// is planned. (A path holding a NUL is refused first, as unencodable.)
pub proof fn lemma_no_access_is_refused(p: Seq<u8>, o: OptionsModel)
    requires
        !o.read,
        !o.write,
        !p.contains(0u8),
    ensures
        open_plan(p, o) == Err::<(Seq<u8>, i32, u32), Error>(Error::InvalidConfig),
{
}

/// Creation or truncation without write access is refused with the
/// configuration error, for every path that can be encoded, before any
/// call is planned.
pub proof fn lemma_create_or_truncate_needs_write(p: Seq<u8>, o: OptionsModel)
    requires
        !o.write,
        o.truncate || o.create,
        !p.contains(0u8),
    ensures
        open_plan(p, o) == Err::<(Seq<u8>, i32, u32), Error>(Error::InvalidConfig),
{
}

/// A path holding a NUL byte is refused as unencodable, whatever the
/// options, before any call is planned.
pub proof fn lemma_nul_in_path_is_refused(p: Seq<u8>, o: OptionsModel)
    requires
        p.contains(0u8),
    ensures
        open_plan(p, o) == Err::<(Seq<u8>, i32, u32), Error>(Error::InvalidPath),
{
}

/// Where a seek call places the offset.
#[derive(Debug, Clone, Copy, PartialEq, Eq, Structural)]
pub enum SeekFrom {
    /// This many bytes from the start.
    Start(u64),
    /// This many bytes from the end; may be negative.
    End(i64),
    /// This many bytes from the current offset; may be negative.
    Current(i64),
}

/// The offset and whence code a seek call takes for the position `pos`.
pub open spec fn seek_args(pos: SeekFrom) -> (i64, i32) {
    match pos {
        SeekFrom::Start(off) => (start_offset(off), SEEK_SET),
        SeekFrom::End(off) => (off, SEEK_END),
        SeekFrom::Current(off) => (off, SEEK_CUR),
    }
}

/// The signed offset the kernel receives for the absolute offset `off`:
/// the same bits, so offsets above `i64::MAX` arrive negative.
pub open spec fn start_offset(off: u64) -> i64 {
    if off <= i64::MAX {
        off as i64
    } else {
        (off - 0x1_0000_0000_0000_0000) as i64
    }
}

/// Seeking to an absolute offset asks the kernel for exactly that offset
/// from the start; seeking from the end passes the offset, negative or
/// not, on unchanged, measured from the end.
pub proof fn lemma_seek_targets(n: u64, off: i64)
    requires
        n <= i64::MAX,
    ensures
        seek_args(SeekFrom::Start(n)).0 == n as int,
        seek_args(SeekFrom::Start(n)).1 == SEEK_SET,
        seek_args(SeekFrom::End(off)) == (off, SEEK_END),
        seek_args(SeekFrom::Current(off)) == (off, SEEK_CUR),
{
}

/// An absolute offset above `i64::MAX` reaches the kernel as the negative
/// offset with the same bits.
pub proof fn lemma_seek_beyond_signed_range(n: u64)
    requires
        n > i64::MAX,
    ensures
        seek_args(SeekFrom::Start(n)).0 < 0,
        seek_args(SeekFrom::Start(n)).0 == n - 0x1_0000_0000_0000_0000,
{
}

/// What a seek call that returned `ret`, with `errno` as the last error,
/// amounts to: the new offset from the start, or the kernel's error.
pub open spec fn seek_outcome(ret: i64, errno: i32) -> Result<u64, Error> {
    if ret < 0 {
        Err(Error::Os(errno))
    } else {
        Ok(ret as u64)
    }
}

/// One open call to issue: the NUL-terminated path, the flags and the
/// permission bits for a created file.
#[derive(Debug, PartialEq, Eq)]
pub struct OpenRequest {
    pub path: Vec<u8>,
    pub flags: i32,
    pub mode: u32,
}

/// One seek call to issue.
#[derive(Debug, Clone, Copy, PartialEq, Eq, Structural)]
pub struct SeekRequest {
    pub fd: RawFd,
    pub offset: i64,
    pub whence: i32,
}

/// Encodes `path` for the kernel, or fails when it holds a NUL byte.
pub fn to_c_path(path: &[u8]) -> (r: Result<Vec<u8>, Error>)
    ensures
        path@.contains(0u8) ==> r == Err::<Vec<u8>, Error>(Error::InvalidPath),
        !path@.contains(0u8) ==> r is Ok && r->Ok_0@ == c_path(path@),
{
    let mut out: Vec<u8> = Vec::new();
    let mut i: usize = 0;
    while i < path.len()
        invariant
            i <= path@.len(),
            out@ == path@.subrange(0, i as int),
            forall|j: int| 0 <= j < i ==> path@[j] != 0u8,
        decreases path@.len() - i,
    {
        let b = path[i];
        if b == 0 {
            assert(path@[i as int] == 0u8);
            return Err(Error::InvalidPath);
        }
        out.push(b);
        i = i + 1;
        assert(out@ == path@.subrange(0, i as int));
    }
    assert(path@.subrange(0, i as int) == path@);
    out.push(0u8);
    assert(!path@.contains(0u8)) by {
        assert forall|j: int| 0 <= j < path@.len() implies path@[j] != 0u8 by {}
    }
    Ok(out)
}

/// Whether `path` ends in its only NUL byte.
fn is_c_path_exec(path: &[u8]) -> (r: bool)
    ensures
        r == is_c_path(path@),
{
    let n = path.len();
    if n == 0 || path[n - 1] != 0 {
        return false;
    }
    let mut i: usize = 0;
    while i < n - 1
        invariant
            n == path@.len(),
            n > 0,
            i <= n - 1,
            forall|j: int| 0 <= j < i ==> path@[j] != 0u8,
        decreases n - 1 - i,
    {
        if path[i] == 0 {
            assert(path@.drop_last()[i as int] == 0u8);
            return false;
        }
        i = i + 1;
    }
    assert(!path@.drop_last().contains(0u8)) by {
        assert forall|j: int| 0 <= j < path@.drop_last().len() implies path@.drop_last()[j] != 0u8 by {
            assert(path@.drop_last()[j] == path@[j]);
        }
    }
    true
}

/// A plain record of how a file is to be opened.
pub struct OpenOptions {
    read: bool,
    write: bool,
    truncate: bool,
    create: bool,
    mode: u32,
}

impl View for OpenOptions {
    type V = OptionsModel;

    closed spec fn view(&self) -> OptionsModel {
        OptionsModel {
            read: self.read,
            write: self.write,
            truncate: self.truncate,
            create: self.create,
            mode: self.mode,
        }
    }
}

impl OpenOptions {
    /// No access, no creation, no truncation, and the default mode.
    pub fn new() -> (r: Self)
        ensures
            r@ == (OptionsModel {
                read: false,
                write: false,
                truncate: false,
                create: false,
                mode: DEFAULT_MODE,
            }),
    {
        OpenOptions { read: false, write: false, truncate: false, create: false, mode: DEFAULT_MODE }
    }

    pub fn read(&mut self, read: bool)
        ensures
            final(self)@ == (OptionsModel { read, ..old(self)@ }),
    {
        self.read = read;
    }

    pub fn write(&mut self, write: bool)
        ensures
            final(self)@ == (OptionsModel { write, ..old(self)@ }),
    {
        self.write = write;
    }

    pub fn truncate(&mut self, truncate: bool)
        ensures
            final(self)@ == (OptionsModel { truncate, ..old(self)@ }),
    {
        self.truncate = truncate;
    }

    pub fn create(&mut self, create: bool)
        ensures
            final(self)@ == (OptionsModel { create, ..old(self)@ }),
    {
        self.create = create;
    }

    pub fn mode(&mut self, mode: u32)
        ensures
            final(self)@ == (OptionsModel { mode, ..old(self)@ }),
    {
        self.mode = mode;
    }

    /// The access-mode flag, or the configuration error.
    pub fn get_access_mode(&self) -> (r: Result<i32, Error>)
        ensures
            r == access_mode(self@),
    {
        match (self.read, self.write) {
            (true, false) => Ok(O_RDONLY),
            (false, true) => Ok(O_WRONLY),
            (true, true) => Ok(O_RDWR),
            (false, false) => Err(Error::InvalidConfig),
        }
    }

    /// The creation flags, or the configuration error.
    pub fn get_creation_mode(&self) -> (r: Result<i32, Error>)
        ensures
            r == creation_mode(self@),
    {
        if !self.write && (self.truncate || self.create) {
            return Err(Error::InvalidConfig);
        }
        Ok(match (self.create, self.truncate) {
            (false, false) => 0,
            (true, false) => O_CREAT,
            (false, true) => O_TRUNC,
            (true, true) => O_CREAT | O_TRUNC,
        })
    }
}

/// An open file.
pub struct File(FileDesc);

impl View for File {
    type V = HandleState;

    closed spec fn view(&self) -> HandleState {
        self.0@
    }
}

impl File {
    /// The open call for `path` with `opts`: encodes the path, then checks
    /// the options. Nothing is issued when either fails.
    pub fn open(path: &[u8], opts: &OpenOptions) -> (r: Result<OpenRequest, Error>)
        ensures
            match open_plan(path@, opts@) {
                Ok((p, flags, mode)) => r is Ok && r->Ok_0.path@ == p && r->Ok_0.flags == flags
                    && r->Ok_0.mode == mode,
                Err(e) => r == Err::<OpenRequest, Error>(e),
            },
    {
        let p = match to_c_path(path) {
            Ok(p) => p,
            Err(e) => return Err(e),
        };
        match File::flags_for(opts) {
            Ok(flags) => Ok(OpenRequest { path: p, flags, mode: opts.mode }),
            Err(e) => Err(e),
        }
    }

    /// The open call for a path that is already NUL-terminated: fails with
    /// the path error unless `path` ends in its only NUL byte, then checks
    /// the options.
    pub fn open_c(path: &[u8], opts: &OpenOptions) -> (r: Result<OpenRequest, Error>)
        ensures
            match open_c_plan(path@, opts@) {
                Ok((p, flags, mode)) => r is Ok && r->Ok_0.path@ == p && r->Ok_0.flags == flags
                    && r->Ok_0.mode == mode,
                Err(e) => r == Err::<OpenRequest, Error>(e),
            },
    {
        if !is_c_path_exec(path) {
            return Err(Error::InvalidPath);
        }
        match File::flags_for(opts) {
            Ok(flags) => {
                let mut p: Vec<u8> = Vec::new();
                p.extend_from_slice(path);
                Ok(OpenRequest { path: p, flags, mode: opts.mode })
            },
            Err(e) => Err(e),
        }
    }

    /// The flags of the open call: access mode and creation flags together.
    fn flags_for(opts: &OpenOptions) -> (r: Result<i32, Error>)
        ensures
            valid_options(opts@) ==> r == Ok::<i32, Error>(open_flags(opts@)),
            !valid_options(opts@) ==> r == Err::<i32, Error>(Error::InvalidConfig),
    {
        let access = match opts.get_access_mode() {
            Ok(a) => a,
            Err(e) => return Err(e),
        };
        let creation = match opts.get_creation_mode() {
            Ok(c) => c,
            Err(e) => return Err(e),
        };
        Ok(access | creation)
    }

    /// Takes the result of the open call: on success the file owns the
    /// descriptor the kernel returned.
    pub fn opened(ret: i32, errno: i32) -> (r: Result<File, Error>)
        ensures
            ret < 0 ==> r == Err::<File, Error>(Error::Os(errno)),
            ret >= 0 ==> r is Ok && r->Ok_0@ == HandleState::Owning(ret),
    {
        if ret < 0 {
            Err(Error::Os(errno))
        } else {
            Ok(File::from_raw(ret))
        }
    }

    /// Ends ownership for an explicit close: returns the descriptor to close.
    pub fn close(&mut self) -> (fd: RawFd)
        ensures
            fd == old(self)@.fd(),
            final(self)@ == disown_step(old(self)@),
    {
        self.0.close()
    }

    /// The read call that fills a buffer of `len` bytes.
    pub fn read(&self, len: usize) -> (t: Transfer)
        ensures
            t.fd == self@.fd(),
            t.count == transfer_count(len),
    {
        self.0.read(len)
    }

    /// The write call that sends a buffer of `len` bytes.
    pub fn write(&self, len: usize) -> (t: Transfer)
        ensures
            t.fd == self@.fd(),
            t.count == transfer_count(len),
    {
        self.0.write(len)
    }

    /// Nothing is buffered, so there is nothing to flush.
    pub fn flush(&self) -> (r: Result<(), Error>)
        ensures
            r == Ok::<(), Error>(()),
    {
        Ok(())
    }

    /// The seek call that moves the offset to `pos`.
    pub fn seek(&self, pos: SeekFrom) -> (s: SeekRequest)
        ensures
            s.fd == self@.fd(),
            (s.offset, s.whence) == seek_args(pos),
    {
        let (whence, offset) = match pos {
            SeekFrom::Start(off) => (SEEK_SET, if off <= i64::MAX as u64 {
                off as i64
            } else {
                (off - i64::MAX as u64 - 1) as i64 + i64::MIN
            }),
            SeekFrom::End(off) => (SEEK_END, off),
            SeekFrom::Current(off) => (SEEK_CUR, off),
        };
        SeekRequest { fd: self.0.as_raw_fd(), offset, whence }
    }

    /// The scope-exit hook; see `OwnedFd::release`.
    pub fn release(&mut self) -> (r: Option<RawFd>)
        ensures
            (r, final(self)@) == release_step(old(self)@),
    {
        self.0.release()
    }

    /// Whether scope exit still owes a close.
    pub fn is_owning(&self) -> (r: bool)
        ensures
            r == self@.is_owning(),
    {
        self.0.is_owning()
    }
}

/// Interprets the result of a seek call.
pub fn cvt_seek(ret: i64, errno: i32) -> (r: Result<u64, Error>)
    ensures
        r == seek_outcome(ret, errno),
{
    if ret < 0 {
        Err(Error::Os(errno))
    } else {
        Ok(ret as u64)
    }
}

impl AsRawFd for File {
    open spec fn raw_fd(&self) -> RawFd {
        self@.fd()
    }

    fn as_raw_fd(&self) -> (fd: RawFd) {
        self.0.as_raw_fd()
    }
}

impl FromRawFd for File {
    fn from_raw(fd: RawFd) -> (r: Self)
        ensures
            r@ == HandleState::Owning(fd),
    {
        File(FileDesc::from_raw(fd))
    }
}

impl IntoRawFd for File {
    fn into_raw_fd(self) -> (fd: RawFd)
        ensures
            fd == self@.fd(),
    {
        self.0.into_raw_fd()
    }
}

} // verus!
