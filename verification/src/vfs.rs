//! The virtual file system dispatcher.
//!
//! One fixed-capacity table maps integer file descriptors to owned device
//! instances; a growable registry maps path names to device factories.
//! `open` resolves a path to its first registered factory, allocates a
//! descriptor by a circular scan that never hands out the standard
//! streams 0, 1 and 2, and binds a freshly created device; every other
//! operation validates the descriptor and routes to the bound device.

use crate::device::{Device, DeviceFactory, UserBuffer};
use crate::errno::{EBADF, EFAULT, EINVAL, EMFILE, ENOENT, ENOSYS};
use crate::ioctl::{decode_spec, IoctlCommand};
use crate::strings::str_eq_str;
use crate::user_ptr::UserPtr;
use vstd::prelude::*;

verus! {

/// A file descriptor.
pub type Fd = i32;

/// Outcome of a fallible dispatcher operation; the error is the negated
/// error number.
pub type VfsResult<T> = Result<T, isize>;

/// Capacity of the descriptor table.
pub const MAX_FDS: usize = 256;

/// Lowest descriptor the automatic allocator may hand out; 0, 1 and 2
/// are reserved for the standard streams.
pub const FIRST_ALLOC_FD: usize = 3;

/// A descriptor-table slot's contents: the device instance bound to the
/// descriptor, owned exclusively by the slot.
pub struct FdEntry<D> {
    /// The bound device.
    pub device: D,
}

/// The first free slot at or after `i`, below `hi`.
pub open spec fn free_from<D>(table: Seq<Option<FdEntry<D>>>, i: int, hi: int) -> Option<int>
    decreases hi - i,
{
    if i >= hi {
        None
    } else if table[i] is None {
        Some(i)
    } else {
        free_from(table, i + 1, hi)
    }
}

/// The descriptor the circular scan allocates: the first free slot from
/// the cursor up, else the first free slot from 3 up to the cursor.
pub open spec fn alloc_fd<D>(table: Seq<Option<FdEntry<D>>>, next_fd: int) -> Option<int> {
    match free_from(table, next_fd, MAX_FDS as int) {
        Some(i) => Some(i),
        None => free_from(table, FIRST_ALLOC_FD as int, next_fd),
    }
}

/// What `free_from` finds: a free slot with everything before it
/// occupied, or no slot because everything is occupied.
pub proof fn lemma_free_from_props<D>(table: Seq<Option<FdEntry<D>>>, i: int, hi: int)
    requires
        0 <= i,
        hi <= table.len(),
    ensures
        match free_from(table, i, hi) {
            Some(k) => i <= k < hi && table[k] is None && (forall|j: int|
                i <= j < k ==> table[j] is Some),
            None => forall|j: int| i <= j < hi ==> table[j] is Some,
        },
    decreases hi - i,
{
    if i < hi && !(table[i] is None) {
        lemma_free_from_props(table, i + 1, hi);
    }
}

/// The descriptor table is full on the allocatable range if and only if
/// the circular scan finds nothing.
pub proof fn lemma_alloc_fd_full<D>(table: Seq<Option<FdEntry<D>>>, next_fd: int)
    requires
        table.len() == MAX_FDS,
        FIRST_ALLOC_FD <= next_fd < MAX_FDS,
    ensures
        alloc_fd(table, next_fd) is None <==> (forall|j: int|
            FIRST_ALLOC_FD <= j < MAX_FDS ==> table[j] is Some),
        match alloc_fd(table, next_fd) {
            Some(k) => FIRST_ALLOC_FD <= k < MAX_FDS && table[k] is None,
            None => true,
        },
{
    lemma_free_from_props(table, next_fd, MAX_FDS as int);
    lemma_free_from_props(table, FIRST_ALLOC_FD as int, next_fd);
}

/// While some slot on the allocatable range is free, opening a
/// registered path cannot fail: the registry finds the factory and the
/// circular scan finds a descriptor, so `open`'s contract promises a
/// bound descriptor at or above 3.
pub proof fn lemma_open_finds_registered_path<F: DeviceFactory>(
    devs: Seq<(&'static str, F)>,
    table: Seq<Option<FdEntry<F::Dev>>>,
    next_fd: int,
    path: Seq<char>,
)
    requires
        table.len() == MAX_FDS,
        FIRST_ALLOC_FD <= next_fd < MAX_FDS,
        exists|j: int| 0 <= j < devs.len() && devs[j].0@ == path,
        exists|k: int| FIRST_ALLOC_FD <= k < MAX_FDS && table[k] is None,
    ensures
        find_from(devs, path, 0) is Some,
        alloc_fd(table, next_fd) is Some,
{
    lemma_find_from_props(devs, path, 0);
    lemma_alloc_fd_full(table, next_fd);
}

/// The first registered factory whose path equals `path`, scanning from
/// index `i`.
pub open spec fn find_from<F>(devs: Seq<(&'static str, F)>, path: Seq<char>, i: int) -> Option<int>
    decreases devs.len() - i,
{
    if i < 0 || i >= devs.len() {
        None
    } else if devs[i].0@ == path {
        Some(i)
    } else {
        find_from(devs, path, i + 1)
    }
}

/// What `find_from` finds: the first match, or no match at all.
pub proof fn lemma_find_from_props<F>(devs: Seq<(&'static str, F)>, path: Seq<char>, i: int)
    requires
        0 <= i,
    ensures
        match find_from(devs, path, i) {
            Some(k) => i <= k < devs.len() && devs[k].0@ == path && (forall|j: int|
                i <= j < k ==> devs[j].0@ != path),
            None => forall|j: int| i <= j < devs.len() ==> devs[j].0@ != path,
        },
    decreases devs.len() - i,
{
    if i < devs.len() && devs[i].0@ != path {
        lemma_find_from_props(devs, path, i + 1);
    }
}

/// The virtual file system: descriptor table, factory registry, and the
/// cursor the circular descriptor scan starts from.
pub struct Vfs<F: DeviceFactory> {
    fd_table: Vec<Option<FdEntry<F::Dev>>>,
    next_fd: Fd,
    devices: Vec<(&'static str, F)>,
}

impl<F: DeviceFactory> Vfs<F> {
    /// The descriptor table.
    pub closed spec fn table(&self) -> Seq<Option<FdEntry<F::Dev>>> {
        self.fd_table@
    }

    /// The scan cursor.
    pub closed spec fn next(&self) -> int {
        self.next_fd as int
    }

    /// The factory registry, in registration order.
    pub closed spec fn factories(&self) -> Seq<(&'static str, F)> {
        self.devices@
    }

    /// Structural invariant: the table has its fixed capacity and the
    /// cursor stays on the allocatable range.
    pub open spec fn wf(&self) -> bool {
        &&& self.table().len() == MAX_FDS
        &&& FIRST_ALLOC_FD <= self.next() < MAX_FDS
    }

    /// Create a new, empty file system: no descriptor bound, no factory
    /// registered, cursor at the first allocatable descriptor.
    pub fn new() -> (vfs: Vfs<F>)
        ensures
            vfs.wf(),
            vfs.next() == FIRST_ALLOC_FD,
            vfs.factories() == Seq::<(&'static str, F)>::empty(),
            forall|j: int| 0 <= j < MAX_FDS ==> vfs.table()[j] is None,
    {
        let mut fd_table: Vec<Option<FdEntry<F::Dev>>> = Vec::new();
        let mut i: usize = 0;
        while i < MAX_FDS
            invariant
                i <= MAX_FDS,
                fd_table@.len() == i,
                forall|j: int| 0 <= j < i ==> fd_table@[j] is None,
            decreases MAX_FDS - i,
        {
            fd_table.push(None);
            i = i + 1;
        }
        Vfs { fd_table, next_fd: 3, devices: Vec::new() }
    }

    /// Bind `entry` directly to descriptor `fd`, replacing whatever the
    /// slot held; this is how the standard streams 0, 1 and 2 are set up.
    pub fn register_fd(&mut self, fd: Fd, entry: FdEntry<F::Dev>) -> (r: VfsResult<()>)
        requires
            old(self).wf(),
        ensures
            final(self).wf(),
            final(self).next() == old(self).next(),
            final(self).factories() == old(self).factories(),
            fd < 0 || fd >= MAX_FDS ==> r == Err::<(), isize>((-EINVAL) as isize) && final(self).table() == old(self).table(),
            0 <= fd < MAX_FDS ==> r == Ok::<(), isize>(()) && final(self).table() == old(self).table().update(fd as int, Some(entry)),
    {
        if fd < 0 || fd as usize >= MAX_FDS {
            return Err(-EINVAL);
        }
        self.fd_table[fd as usize] = Some(entry);
        Ok(())
    }

    /// Register a device factory under a path name.
    ///
    /// Duplicates are not detected: lookup takes the first registered
    /// match, so a later factory under the same path is unreachable.
    pub fn register_device(&mut self, path: &'static str, factory: F) -> (r: VfsResult<()>)
        requires
            old(self).wf(),
        ensures
            final(self).wf(),
            final(self).next() == old(self).next(),
            final(self).table() == old(self).table(),
            final(self).factories() == old(self).factories().push((path, factory)),
            r == Ok::<(), isize>(()),
    {
        self.devices.push((path, factory));
        Ok(())
    }

    /// Open `path`: resolve the first factory registered under exactly
    /// that path, allocate a free descriptor at or above 3 by a circular
    /// scan, and bind a freshly created device to it.
    pub fn open(&mut self, path: &str, _flags: i32, _mode: u32) -> (r: VfsResult<Fd>)
        requires
            old(self).wf(),
        ensures
            final(self).wf(),
            final(self).factories() == old(self).factories(),
            match find_from(old(self).factories(), path@, 0) {
                Option::None => r == Err::<Fd, isize>((-ENOENT) as isize) && final(self).table()
                    == old(self).table() && final(self).next() == old(self).next(),
                Option::Some(fi) => match alloc_fd(old(self).table(), old(self).next()) {
                    Option::None => r == Err::<Fd, isize>((-EMFILE) as isize) && final(self).table() == old(self).table() && final(self).next() == old(self).next(),
                    Option::Some(fd) => {
                        &&& r == Ok::<Fd, isize>(fd as Fd)
                        &&& FIRST_ALLOC_FD <= fd < MAX_FDS
                        &&& old(self).table()[fd] is None
                        &&& final(self).table() == old(self).table().update(
                            fd,
                            Some(
                                FdEntry {
                                    device: old(self).factories()[fi].1.create_spec(),
                                },
                            ),
                        )
                        &&& final(self).next() == (if fd + 1 < MAX_FDS {
                            fd + 1
                        } else {
                            FIRST_ALLOC_FD as int
                        })
                    },
                },
            },
    {
        let ghost devs = self.devices@;
        let mut fi: usize = 0;
        let n = self.devices.len();
        while fi < n && !str_eq_str(self.devices[fi].0, path)
            invariant
                n == devs.len(),
                fi <= n,
                devs == self.devices@,
                find_from(devs, path@, 0) == find_from(devs, path@, fi as int),
            decreases n - fi,
        {
            fi = fi + 1;
        }
        if fi >= n {
            return Err(-ENOENT);
        }

        let ghost table0 = self.fd_table@;
        let start: usize = if self.next_fd < 3 {
            3
        } else {
            self.next_fd as usize
        };
        let mut found: usize = MAX_FDS;
        let mut idx: usize = start;
        while idx < MAX_FDS && self.fd_table[idx].is_some()
            invariant
                self.fd_table@ == table0,
                table0.len() == MAX_FDS,
                start <= idx <= MAX_FDS,
                free_from(table0, start as int, MAX_FDS as int) == free_from(
                    table0,
                    idx as int,
                    MAX_FDS as int,
                ),
            decreases MAX_FDS - idx,
        {
            idx = idx + 1;
        }
        if idx < MAX_FDS {
            found = idx;
        } else {
            let mut idx2: usize = 3;
            while idx2 < start && self.fd_table[idx2].is_some()
                invariant
                    self.fd_table@ == table0,
                    table0.len() == MAX_FDS,
                    start <= MAX_FDS,
                    3 <= idx2 <= start,
                    free_from(table0, FIRST_ALLOC_FD as int, start as int) == free_from(
                        table0,
                        idx2 as int,
                        start as int,
                    ),
                decreases start - idx2,
            {
                idx2 = idx2 + 1;
            }
            if idx2 < start {
                found = idx2;
            }
        }
        if found >= MAX_FDS {
            return Err(-EMFILE);
        }
        let fd: usize = found;

        self.next_fd = if fd + 1 < MAX_FDS {
            (fd + 1) as Fd
        } else {
            3
        };

        let device = self.devices[fi].1.create();
        self.fd_table[fd] = Some(FdEntry { device });

        Ok(fd as Fd)
    }

    /// Read up to `count` bytes through descriptor `fd` into `buf`.
    ///
    /// An out-of-range or empty descriptor is rejected before the
    /// buffer is looked at, so a bad descriptor wins over a bad
    /// buffer.
    pub fn read(&mut self, fd: Fd, buf: &mut UserBuffer, count: usize) -> (r: isize)
        requires
            old(self).wf(),
            old(buf).null || count <= old(buf).data@.len(),
            count <= isize::MAX,
        ensures
            final(self).wf(),
            final(self).next() == old(self).next(),
            final(self).factories() == old(self).factories(),
            final(buf).null == old(buf).null,
            final(buf).data@.len() == old(buf).data@.len(),
            fd < 0 || fd >= MAX_FDS ==> r == -EBADF && final(self).table() == old(self).table()
                && final(buf).data@ == old(buf).data@,
            0 <= fd < MAX_FDS ==> match old(self).table()[fd as int] {
                Option::None => r == -EBADF && final(self).table() == old(self).table() && final(buf).data@ == old(buf).data@,
                Option::Some(e) => if count != 0 && old(buf).null {
                    r == -EFAULT && final(self).table() == old(self).table() && final(buf).data@
                        == old(buf).data@
                } else {
                    let (d, bytes, ret) = e.device.read_spec(old(buf).null, old(buf).data@, count);
                    r == ret && final(buf).data@ == bytes && final(self).table() == old(self).table().update(fd as int, Some(FdEntry { device: d }))
                },
            },
    {
        if fd < 0 || fd as usize >= MAX_FDS {
            return -EBADF;
        }
        let idx = fd as usize;
        if self.fd_table[idx].is_none() {
            return -EBADF;
        }
        if count != 0 && buf.null {
            return -EFAULT;
        }
        match &mut self.fd_table[idx] {
            Some(entry) => entry.device.read(buf, count),
            None => -EBADF,
        }
    }

    /// Write up to `count` bytes from `buf` through descriptor `fd`.
    ///
    /// An out-of-range or empty descriptor is rejected before the
    /// buffer is looked at, so a bad descriptor wins over a bad
    /// buffer.
    pub fn write(&mut self, fd: Fd, buf: &UserBuffer, count: usize) -> (r: isize)
        requires
            old(self).wf(),
            buf.null || count <= buf.data@.len(),
            count <= isize::MAX,
        ensures
            final(self).wf(),
            final(self).next() == old(self).next(),
            final(self).factories() == old(self).factories(),
            fd < 0 || fd >= MAX_FDS ==> r == -EBADF && final(self).table() == old(self).table(),
            0 <= fd < MAX_FDS ==> match old(self).table()[fd as int] {
                Option::None => r == -EBADF && final(self).table() == old(self).table(),
                Option::Some(e) => if count != 0 && buf.null {
                    r == -EFAULT && final(self).table() == old(self).table()
                } else {
                    let (d, ret) = e.device.write_spec(buf.null, buf.data@, count);
                    r == ret && final(self).table() == old(self).table().update(
                        fd as int,
                        Some(FdEntry { device: d }),
                    )
                },
            },
    {
        if fd < 0 || fd as usize >= MAX_FDS {
            return -EBADF;
        }
        let idx = fd as usize;
        if self.fd_table[idx].is_none() {
            return -EBADF;
        }
        if count != 0 && buf.null {
            return -EFAULT;
        }
        match &mut self.fd_table[idx] {
            Some(entry) => entry.device.write(buf, count),
            None => -EBADF,
        }
    }

    /// Seek on descriptor `fd`.
    pub fn lseek(&mut self, fd: Fd, offset: isize, whence: i32) -> (r: isize)
        requires
            old(self).wf(),
        ensures
            final(self).wf(),
            final(self).next() == old(self).next(),
            final(self).factories() == old(self).factories(),
            fd < 0 || fd >= MAX_FDS ==> r == -EBADF && final(self).table() == old(self).table(),
            0 <= fd < MAX_FDS ==> match old(self).table()[fd as int] {
                Option::None => r == -EBADF && final(self).table() == old(self).table(),
                Option::Some(e) => {
                    let (d, ret) = e.device.seek_spec(offset, whence);
                    r == ret && final(self).table() == old(self).table().update(
                        fd as int,
                        Some(FdEntry { device: d }),
                    )
                },
            },
    {
        if fd < 0 || fd as usize >= MAX_FDS {
            return -EBADF;
        }
        let idx = fd as usize;
        let r = match &mut self.fd_table[idx] {
            Some(entry) => entry.device.seek(offset, whence),
            None => -EBADF,
        };
        proof {
            if old(self).table()[fd as int] is None {
                assert(self.table() =~= old(self).table());
            }
        }
        r
    }

    /// Decode the raw command word `request` and hand the command, with
    /// the raw argument address, to the device bound to `fd`.
    pub fn ioctl(&mut self, fd: Fd, request: usize, raw_arg: usize) -> (r: isize)
        requires
            old(self).wf(),
        ensures
            final(self).wf(),
            final(self).next() == old(self).next(),
            final(self).factories() == old(self).factories(),
            fd < 0 || fd >= MAX_FDS ==> r == -EBADF && final(self).table() == old(self).table(),
            0 <= fd < MAX_FDS ==> match old(self).table()[fd as int] {
                Option::None => r == -EBADF && final(self).table() == old(self).table(),
                Option::Some(e) => {
                    let (d, ret) = e.device.ioctl_spec(decode_spec(request), raw_arg);
                    r == ret && final(self).table() == old(self).table().update(
                        fd as int,
                        Some(FdEntry { device: d }),
                    )
                },
            },
    {
        if fd < 0 || fd as usize >= MAX_FDS {
            return -EBADF;
        }
        let idx = fd as usize;
        let r = match &mut self.fd_table[idx] {
            Some(entry) => {
                let cmd = IoctlCommand::from_raw(request);
                entry.device.ioctl(cmd, raw_arg)
            },
            None => -EBADF,
        };
        proof {
            if old(self).table()[fd as int] is None {
                assert(self.table() =~= old(self).table());
            }
        }
        r
    }

    /// Close descriptor `fd`: empty the slot and release the device.
    ///
    /// The release capability runs exactly once per binding, here.
    pub fn close(&mut self, fd: Fd) -> (r: isize)
        requires
            old(self).wf(),
        ensures
            final(self).wf(),
            final(self).next() == old(self).next(),
            final(self).factories() == old(self).factories(),
            fd < 0 || fd >= MAX_FDS ==> r == -EBADF && final(self).table() == old(self).table(),
            0 <= fd < MAX_FDS ==> match old(self).table()[fd as int] {
                Option::None => r == -EBADF && final(self).table() == old(self).table(),
                Option::Some(e) => r == e.device.release_spec().1 && final(self).table() == old(self).table().update(fd as int, Option::None),
            },
    {
        if fd < 0 || fd as usize >= MAX_FDS {
            return -EBADF;
        }
        let idx = fd as usize;
        let mut slot: Option<FdEntry<F::Dev>> = None;
        core::mem::swap(&mut slot, &mut self.fd_table[idx]);
        let r = match slot {
            Some(mut entry) => entry.device.release(),
            None => -EBADF,
        };
        proof {
            if old(self).table()[fd as int] is None {
                assert(self.table() =~= old(self).table());
            }
        }
        r
    }

    /// Report metadata for descriptor `fd`.
    ///
    /// Not implemented: after validating the descriptor and the buffer
    /// address this reports an explicit gap, distinguishable from a
    /// semantic rejection.
    pub fn fstat(&self, fd: Fd, statbuf: UserPtr<u8>) -> (r: isize)
        requires
            self.wf(),
        ensures
            fd < 0 || fd >= MAX_FDS ==> r == -EBADF,
            0 <= fd < MAX_FDS && statbuf.addr_spec() == 0 ==> r == -EFAULT,
            0 <= fd < MAX_FDS && statbuf.addr_spec() != 0 ==> r == -ENOSYS,
    {
        if fd < 0 || fd as usize >= MAX_FDS {
            return -EBADF;
        }
        if statbuf.is_null() {
            return -EFAULT;
        }
        -ENOSYS
    }
}

} // verus!
