use zeroos::{
    ConsoleDevice, FdEntry, StandardDevice, StandardFactory, UserBuffer, UserPtr, Vfs,
    make_null_factory, make_urandom_factory, make_zero_factory, ZeroFactory,
};

fn buffer(fill: u8, len: usize) -> UserBuffer {
    UserBuffer { null: false, data: vec![fill; len] }
}

fn standard_vfs() -> Vfs<StandardFactory> {
    let mut vfs: Vfs<StandardFactory> = Vfs::new();
    vfs.register_device("/dev/null", make_null_factory()).unwrap();
    vfs.register_device("/dev/zero", make_zero_factory()).unwrap();
    vfs.register_device("/dev/urandom", make_urandom_factory()).unwrap();
    vfs
}

#[test]
fn open_unregistered_path_fails_enoent() {
    let mut vfs = standard_vfs();
    assert_eq!(vfs.open("/dev/missing", 0, 0), Err(-2));
}

#[test]
fn open_returns_descriptors_from_three() {
    let mut vfs = standard_vfs();
    let a = vfs.open("/dev/zero", 0, 0).unwrap();
    let b = vfs.open("/dev/null", 0, 0).unwrap();
    let c = vfs.open("/dev/urandom", 0, 0).unwrap();
    assert_eq!(a, 3);
    assert_eq!(b, 4);
    assert_eq!(c, 5);
    assert!(a >= 3 && b >= 3 && c >= 3);
}

#[test]
fn zero_device_scenario() {
    let mut vfs: Vfs<ZeroFactory> = Vfs::new();
    vfs.register_device("/dev/zero", ZeroFactory).unwrap();
    let fd = vfs.open("/dev/zero", 0, 0).unwrap();
    assert_eq!(fd, 3);

    let mut buf = buffer(0xAA, 16);
    assert_eq!(vfs.read(fd, &mut buf, 16), 16);
    assert_eq!(buf.data, vec![0u8; 16]);

    let wbuf = buffer(0x55, 16);
    assert_eq!(vfs.write(fd, &wbuf, 16), 16);
    assert_eq!(wbuf.data, vec![0x55u8; 16]);

    assert_eq!(vfs.close(fd), 0);
    let mut buf2 = buffer(0, 4);
    assert_eq!(vfs.read(fd, &mut buf2, 4), -9);
}

#[test]
fn operations_route_to_bound_device_until_close() {
    let mut vfs = standard_vfs();
    let zfd = vfs.open("/dev/zero", 0, 0).unwrap();
    let nfd = vfs.open("/dev/null", 0, 0).unwrap();

    // The null device reports end-of-file; the zero device fills.
    let mut buf = buffer(7, 8);
    assert_eq!(vfs.read(nfd, &mut buf, 8), 0);
    assert_eq!(buf.data, vec![7u8; 8]);
    assert_eq!(vfs.read(zfd, &mut buf, 8), 8);
    assert_eq!(buf.data, vec![0u8; 8]);

    // Neither is seekable, neither understands commands.
    assert_eq!(vfs.lseek(zfd, 10, 0), -29);
    assert_eq!(vfs.ioctl(zfd, 0x5401, 0), -25);

    // Close releases exactly once; every later operation fails.
    assert_eq!(vfs.close(zfd), 0);
    assert_eq!(vfs.close(zfd), -9);
    assert_eq!(vfs.read(zfd, &mut buf, 8), -9);
    assert_eq!(vfs.write(zfd, &buf, 8), -9);
    assert_eq!(vfs.lseek(zfd, 0, 0), -9);
    assert_eq!(vfs.ioctl(zfd, 0, 0), -9);
}

#[test]
fn urandom_reads_are_deterministic_per_instance() {
    let mut vfs = standard_vfs();
    let a = vfs.open("/dev/urandom", 0, 0).unwrap();
    let b = vfs.open("/dev/urandom", 0, 0).unwrap();
    let mut ba = buffer(0, 16);
    let mut bb = buffer(0, 16);
    assert_eq!(vfs.read(a, &mut ba, 16), 16);
    assert_eq!(vfs.read(b, &mut bb, 16), 16);
    // Fresh instances start from the same seed.
    assert_eq!(ba.data, bb.data);
    // The stream advances within one instance.
    let first = ba.data.clone();
    assert_eq!(vfs.read(a, &mut ba, 16), 16);
    assert_ne!(ba.data, first);
    // Writing the random source is rejected.
    assert_eq!(vfs.write(a, &ba, 16), -9);
}

#[test]
fn filling_all_slots_gives_emfile() {
    let mut vfs = standard_vfs();
    for i in 0..253 {
        let fd = vfs.open("/dev/null", 0, 0).unwrap();
        assert_eq!(fd, 3 + i);
    }
    assert_eq!(vfs.open("/dev/null", 0, 0), Err(-24));
    // Closing one slot frees exactly one descriptor.
    assert_eq!(vfs.close(100), 0);
    assert_eq!(vfs.open("/dev/null", 0, 0), Ok(100));
    assert_eq!(vfs.open("/dev/null", 0, 0), Err(-24));
}

#[test]
fn zero_length_transfers_succeed_even_on_null_buffers() {
    let mut vfs = standard_vfs();
    let fd = vfs.open("/dev/zero", 0, 0).unwrap();
    let mut null_buf = UserBuffer::new_null();
    assert_eq!(vfs.read(fd, &mut null_buf, 0), 0);
    assert_eq!(vfs.write(fd, &null_buf, 0), 0);
    // A non-zero length with a null buffer is a fault.
    assert_eq!(vfs.read(fd, &mut null_buf, 4), -14);
    assert_eq!(vfs.write(fd, &null_buf, 4), -14);
}

#[test]
fn bad_descriptors_are_rejected() {
    let mut vfs = standard_vfs();
    let mut buf = buffer(0, 4);
    // An empty slot wins over a bad buffer: EBADF, not EFAULT.
    let mut null_buf = zeroos::UserBuffer::new_null();
    assert_eq!(vfs.read(10, &mut null_buf, 4), -9);
    assert_eq!(vfs.write(10, &null_buf, 4), -9);
    assert_eq!(vfs.read(-1, &mut buf, 4), -9);
    assert_eq!(vfs.read(256, &mut buf, 4), -9);
    assert_eq!(vfs.read(10, &mut buf, 4), -9);
    assert_eq!(vfs.write(-1, &buf, 4), -9);
    assert_eq!(vfs.lseek(300, 0, 0), -9);
    assert_eq!(vfs.ioctl(-5, 0, 0), -9);
    assert_eq!(vfs.close(-1), -9);
    assert_eq!(vfs.close(255), -9);
}

#[test]
fn register_fd_binds_standard_streams() {
    let mut vfs = standard_vfs();
    let stdout = FdEntry { device: StandardDevice::Console(ConsoleDevice::output_only()) };
    let stdin = FdEntry {
        device: StandardDevice::Console(ConsoleDevice::with_input(b"hi".to_vec())),
    };
    vfs.register_fd(0, stdin).unwrap();
    vfs.register_fd(1, stdout).unwrap();

    let mut buf = buffer(1, 4);
    // The input console drains its queue, then reports end-of-file;
    // the output console takes every byte; an unbound output rejects
    // writes.
    assert_eq!(vfs.read(0, &mut buf, 4), 2);
    assert_eq!(buf.data, vec![b'h', b'i', 1, 1]);
    assert_eq!(vfs.read(0, &mut buf, 4), 0);
    assert_eq!(vfs.write(1, &buf, 4), 4);
    assert_eq!(vfs.write(0, &buf, 4), -9);

    // Bound standard streams do not disturb automatic allocation.
    assert_eq!(vfs.open("/dev/null", 0, 0), Ok(3));

    // Out-of-range registrations are invalid.
    let extra = FdEntry { device: StandardDevice::Console(ConsoleDevice::output_only()) };
    assert_eq!(vfs.register_fd(-1, extra), Err(-22));
    let extra = FdEntry { device: StandardDevice::Console(ConsoleDevice::output_only()) };
    assert_eq!(vfs.register_fd(256, extra), Err(-22));
}

#[test]
fn fstat_reports_explicit_gap() {
    let mut vfs = standard_vfs();
    let fd = vfs.open("/dev/null", 0, 0).unwrap();
    assert_eq!(vfs.fstat(fd, UserPtr::new(0)), -14);
    assert_eq!(vfs.fstat(fd, UserPtr::new(0x1000)), -38);
    assert_eq!(vfs.fstat(-1, UserPtr::new(0x1000)), -9);
    assert_eq!(vfs.fstat(256, UserPtr::new(0x1000)), -9);
}

#[test]
fn first_registered_factory_wins() {
    let mut vfs: Vfs<StandardFactory> = Vfs::new();
    vfs.register_device("/dev/x", StandardFactory::Zero).unwrap();
    vfs.register_device("/dev/x", StandardFactory::Null).unwrap();
    let fd = vfs.open("/dev/x", 0, 0).unwrap();
    let mut buf = buffer(3, 4);
    // The zero device answers, so the bytes are cleared and the count
    // comes back; the null device would have reported end-of-file.
    assert_eq!(vfs.read(fd, &mut buf, 4), 4);
    assert_eq!(buf.data, vec![0u8; 4]);
}

#[test]
fn next_fd_cursor_wraps_to_three() {
    let mut vfs = standard_vfs();
    let a = vfs.open("/dev/null", 0, 0).unwrap();
    let b = vfs.open("/dev/null", 0, 0).unwrap();
    assert_eq!((a, b), (3, 4));
    assert_eq!(vfs.close(3), 0);
    // The scan starts at the cursor (5), then wraps to reuse 3.
    assert_eq!(vfs.open("/dev/null", 0, 0), Ok(5));
    assert_eq!(vfs.open("/dev/null", 0, 0), Ok(6));
    assert_eq!(vfs.open("/dev/null", 0, 0), Ok(7));
    assert_eq!(vfs.close(4), 0);
    let mut fd = 0;
    for _ in 0..248 {
        fd = vfs.open("/dev/null", 0, 0).unwrap();
    }
    assert_eq!(fd, 255);
    // All slots above are taken; the wrap finds the freed low slots.
    assert_eq!(vfs.open("/dev/null", 0, 0), Ok(3));
    assert_eq!(vfs.open("/dev/null", 0, 0), Ok(4));
}
