use alt::error::{Error, EINVAL};
use alt::fs::{File, OpenOptions};
use alt::os::fd::{AsRawFd, FromRawFd, IntoRawFd, OwnedFd};
use alt::sys::fd::{cvt_close, cvt_transfer, FileDesc, Transfer, READ_LIMIT};
use alt::sys::fs::{
    self as fs_imp, cvt_seek, to_c_path, SeekFrom, SeekRequest, O_CREAT, O_RDONLY, O_RDWR,
    O_TRUNC, O_WRONLY, SEEK_CUR, SEEK_END, SEEK_SET,
};

#[test]
fn no_access_is_a_configuration_error() {
    let opts = OpenOptions::new();
    assert_eq!(opts.open(b"/tmp/x").unwrap_err(), Error::InvalidConfig);
    let mut opts = OpenOptions::new();
    opts.read(false).write(false).mode(0o600);
    assert_eq!(opts.open(b"/tmp/x").unwrap_err(), Error::InvalidConfig);
    assert_eq!(Error::InvalidConfig.raw_os_error(), Some(EINVAL));
}

#[test]
fn create_or_truncate_without_write_is_a_configuration_error() {
    let mut opts = OpenOptions::new();
    opts.read(true).create(true);
    assert_eq!(opts.open(b"/tmp/x").unwrap_err(), Error::InvalidConfig);
    let mut opts = OpenOptions::new();
    opts.read(true).truncate(true);
    assert_eq!(opts.open(b"/tmp/x").unwrap_err(), Error::InvalidConfig);
    // The path is encoded before the options are checked.
    assert_eq!(opts.open(b"a\0b").unwrap_err(), Error::InvalidPath);
    assert_eq!(OpenOptions::new().open(b"a\0b").unwrap_err(), Error::InvalidPath);
}

#[test]
fn access_modes_map_to_flags() {
    let mut opts = OpenOptions::new();
    opts.read(true);
    assert_eq!(opts.open(b"f").unwrap().flags, O_RDONLY);
    let mut opts = OpenOptions::new();
    opts.write(true);
    assert_eq!(opts.open(b"f").unwrap().flags, O_WRONLY);
    opts.read(true);
    assert_eq!(opts.open(b"f").unwrap().flags, O_RDWR);
    assert_eq!((O_RDONLY, O_WRONLY, O_RDWR), (0, 1, 2));
}

#[test]
fn creation_modes_map_to_flags() {
    let mut opts = OpenOptions::new();
    opts.write(true).create(true);
    assert_eq!(opts.open(b"f").unwrap().flags, O_WRONLY | O_CREAT);
    let mut opts = OpenOptions::new();
    opts.write(true).truncate(true);
    assert_eq!(opts.open(b"f").unwrap().flags, O_WRONLY | O_TRUNC);
    opts.create(true).read(true);
    assert_eq!(opts.open(b"f").unwrap().flags, 2 | 64 | 512);
}

#[test]
fn sys_options_report_each_mode() {
    let mut o = fs_imp::OpenOptions::new();
    assert_eq!(o.get_access_mode(), Err(Error::InvalidConfig));
    assert_eq!(o.get_creation_mode(), Ok(0));
    o.truncate(true);
    assert_eq!(o.get_creation_mode(), Err(Error::InvalidConfig));
    o.write(true);
    assert_eq!(o.get_access_mode(), Ok(O_WRONLY));
    assert_eq!(o.get_creation_mode(), Ok(O_TRUNC));
    o.create(true);
    assert_eq!(o.get_creation_mode(), Ok(O_CREAT | O_TRUNC));
    o.read(true);
    assert_eq!(o.get_access_mode(), Ok(O_RDWR));
}

#[test]
fn default_mode_and_chosen_mode() {
    let mut opts = OpenOptions::default();
    opts.read(true);
    assert_eq!(opts.open(b"f").unwrap().mode, 0o666);
    opts.mode(0o600);
    assert_eq!(opts.open(b"f").unwrap().mode, 0o600);
}

#[test]
fn path_is_nul_terminated() {
    assert_eq!(to_c_path(b"/tmp/x").unwrap(), b"/tmp/x\0".to_vec());
    assert_eq!(to_c_path(b"").unwrap(), vec![0u8]);
    assert_eq!(to_c_path(b"/tmp/\0x"), Err(Error::InvalidPath));
    let mut opts = OpenOptions::new();
    opts.read(true);
    assert_eq!(opts.open(b"/tmp/\0x").unwrap_err(), Error::InvalidPath);
    assert_eq!(Error::InvalidPath.raw_os_error(), None);
}

#[test]
fn open_c_keeps_the_terminated_path() {
    let mut o = fs_imp::OpenOptions::new();
    o.read(true);
    let req = fs_imp::File::open_c(b"/tmp/x\0", &o).unwrap();
    assert_eq!(req.path, b"/tmp/x\0".to_vec());
    assert_eq!(req.flags, O_RDONLY);
    assert_eq!(fs_imp::File::open_c(b"/tmp/x\0", &fs_imp::OpenOptions::new()).unwrap_err(), Error::InvalidConfig);
    assert_eq!(fs_imp::File::open_c(b"/tmp/x", &o).unwrap_err(), Error::InvalidPath);
    assert_eq!(fs_imp::File::open_c(b"/tmp\0/x\0", &o).unwrap_err(), Error::InvalidPath);
    assert_eq!(fs_imp::File::open_c(b"", &o).unwrap_err(), Error::InvalidPath);
    assert_eq!(fs_imp::File::open_c(b"x", &fs_imp::OpenOptions::new()).unwrap_err(), Error::InvalidPath);
}

#[test]
fn failed_open_carries_the_os_error() {
    assert_eq!(File::opened(-1, 2).err(), Some(Error::Os(2)));
    assert_eq!(Error::Os(13).raw_os_error(), Some(13));
    let f = File::opened(7, 0).unwrap();
    assert_eq!(f.as_raw_fd(), 7);
    assert!(f.is_owning());
}

#[test]
fn observing_the_descriptor_changes_nothing() {
    let h = OwnedFd::from_raw(5);
    assert_eq!(h.as_raw_fd(), 5);
    assert_eq!(h.as_raw_fd(), 5);
    assert_eq!(h.as_raw_fd(), 5);
    assert!(h.is_owning());
}

#[test]
fn surrendered_handle_closes_nothing() {
    let mut h = OwnedFd::from_raw(9);
    assert_eq!(h.disown(), 9);
    assert!(!h.is_owning());
    assert_eq!(h.release(), None);
    assert_eq!(OwnedFd::from_raw(4).into_raw_fd(), 4);
    let f = File::from_raw(11);
    assert!(f.is_owning());
    assert_eq!(f.into_raw_fd(), 11);
}

#[test]
fn release_closes_exactly_once() {
    let mut h = OwnedFd::from_raw(3);
    assert_eq!(h.release(), Some(3));
    assert_eq!(h.release(), None);
    let mut f = File::opened(8, 0).unwrap();
    assert_eq!(f.close(), 8);
    assert_eq!(f.release(), None);
}

#[test]
fn transfer_counts_are_clamped() {
    let d = FileDesc::from_raw(4);
    assert_eq!(d.read(1024), Transfer { fd: 4, count: 1024 });
    assert_eq!(d.write(0), Transfer { fd: 4, count: 0 });
    assert_eq!(d.write(usize::MAX), Transfer { fd: 4, count: READ_LIMIT });
    assert_eq!(READ_LIMIT, isize::MAX as usize);
}

#[test]
fn end_of_stream_is_zero_not_error() {
    assert_eq!(cvt_transfer(0, 0), Ok(0));
}

#[test]
fn short_write_is_a_count_not_an_error() {
    let f = File::opened(3, 0).unwrap();
    let t = f.write(10);
    assert_eq!(t.count, 10);
    assert_eq!(cvt_transfer(4, 0), Ok(4));
}

#[test]
fn failed_transfer_and_close_carry_errno() {
    assert_eq!(cvt_transfer(-1, 4), Err(Error::Os(4)));
    assert_eq!(cvt_close(-1, 9), Err(Error::Os(9)));
    assert_eq!(cvt_close(0, 0), Ok(()));
}

#[test]
fn seek_translates_position_and_result() {
    let f = File::opened(6, 0).unwrap();
    assert_eq!(f.seek(SeekFrom::Start(100)), SeekRequest { fd: 6, offset: 100, whence: SEEK_SET });
    assert_eq!(f.seek(SeekFrom::End(-3)), SeekRequest { fd: 6, offset: -3, whence: SEEK_END });
    assert_eq!(f.seek(SeekFrom::Current(7)), SeekRequest { fd: 6, offset: 7, whence: SEEK_CUR });
    assert_eq!(f.seek(SeekFrom::Start(u64::MAX)), SeekRequest { fd: 6, offset: -1, whence: SEEK_SET });
    assert_eq!(
        f.seek(SeekFrom::Start(i64::MAX as u64 + 1)),
        SeekRequest { fd: 6, offset: i64::MIN, whence: SEEK_SET }
    );
    assert_eq!(cvt_seek(100, 0), Ok(100));
    assert_eq!(cvt_seek(-1, 22), Err(Error::Os(22)));
}

#[test]
fn flush_always_succeeds() {
    let f = File::opened(3, 0).unwrap();
    assert_eq!(f.flush(), Ok(()));
    assert_eq!(fs_imp::File::from_raw(3).flush(), Ok(()));
}

#[test]
fn write_then_read_scenario() {
    let mut opts = OpenOptions::new();
    opts.write(true).create(true).truncate(true).mode(0o600);
    let req = opts.open(b"/tmp/x").unwrap();
    assert_eq!(req.path, b"/tmp/x\0".to_vec());
    assert_eq!(req.flags, O_WRONLY | O_CREAT | O_TRUNC);
    assert_eq!(req.mode, 0o600);
    let mut out = File::opened(3, 0).unwrap();
    let w = out.write(b"hello".len());
    assert_eq!(w, Transfer { fd: 3, count: 5 });
    assert_eq!(cvt_transfer(5, 0), Ok(5));
    let fd = out.close();
    assert_eq!(cvt_close(0, 0), Ok(()));
    assert_eq!(fd, 3);

    let mut opts = OpenOptions::new();
    opts.read(true);
    let req = opts.open(b"/tmp/x").unwrap();
    assert_eq!(req.flags, O_RDONLY);
    let input = File::opened(3, 0).unwrap();
    assert_eq!(input.read(1024), Transfer { fd: 3, count: 1024 });
    assert_eq!(cvt_transfer(5, 0), Ok(5));
}
