//! The device capability interface and the factory abstraction.
//!
//! Every driver implements [`Device`]; the dispatcher owns one device
//! instance per bound descriptor and routes calls to it. A driver also
//! declares, as spec functions, the model of each capability, and its
//! executable methods are proved against that model, so the dispatcher's
//! own contract can say exactly which device answered and with what.
//!
//! User memory is represented by [`UserBuffer`]: the bytes a user address
//! designates, together with whether that address is null. The raw copy
//! between such a buffer and real user memory is the hardware edge and
//! stays outside the verified library.

use crate::ioctl::IoctlCommand;
use crate::errno::{EBADF, ENOTTY, ESPIPE};
use vstd::prelude::*;

verus! {

/// The bytes reachable through a user-supplied buffer address, plus
/// whether that address is null.
///
/// A null buffer carries no accessible bytes; `data` models exactly the
/// region that the accompanying byte count makes accessible.
pub struct UserBuffer {
    /// True when the user address is null.
    pub null: bool,
    /// The accessible bytes behind the address.
    pub data: Vec<u8>,
}

impl UserBuffer {
    /// A buffer of `len` zero bytes at a non-null address.
    pub fn new_zeroed(len: usize) -> (buf: UserBuffer)
        ensures
            !buf.null,
            buf.data@ == Seq::new(len as nat, |i: int| 0u8),
    {
        let mut data: Vec<u8> = Vec::new();
        let mut i: usize = 0;
        while i < len
            invariant
                i <= len,
                data@ == Seq::new(i as nat, |j: int| 0u8),
            decreases len - i,
        {
            data.push(0);
            assert(data@ =~= Seq::new((i + 1) as nat, |j: int| 0u8));
            i = i + 1;
        }
        UserBuffer { null: false, data }
    }

    /// A null buffer: no bytes are accessible.
    pub fn new_null() -> (buf: UserBuffer)
        ensures
            buf.null,
            buf.data@ == Seq::<u8>::empty(),
    {
        UserBuffer { null: true, data: Vec::new() }
    }
}

/// The capability set every device driver implements.
///
/// Each executable capability is pinned to a spec-level model declared by
/// the implementing driver, so that dispatch through the descriptor table
/// can promise exactly what a bound device returns and how its state and
/// the user buffer change.
///
/// Zero-length transfers should be treated as always legal (see the
/// zero-length law proved over the built-in drivers); the trait itself
/// does not force that on outside implementations, whose models are
/// their own.
pub trait Device: Sized {
    /// Model of `read`: the device state, the buffer bytes, and the
    /// return value after reading `count` bytes into a buffer with the
    /// given null flag and bytes.
    spec fn read_spec(self, null: bool, data: Seq<u8>, count: usize) -> (Self, Seq<u8>, isize);

    /// Model of `write`: the device state and return value after writing
    /// `count` bytes out of the given buffer.
    spec fn write_spec(self, null: bool, data: Seq<u8>, count: usize) -> (Self, isize);

    /// Model of `seek`.
    spec fn seek_spec(self, offset: isize, whence: i32) -> (Self, isize);

    /// Model of `ioctl`, over the decoded command and the raw argument
    /// address.
    spec fn ioctl_spec(self, cmd: IoctlCommand, arg: usize) -> (Self, isize);

    /// Model of `release`.
    spec fn release_spec(self) -> (Self, isize);

    /// Read up to `count` bytes from the device into `buf`.
    fn read(&mut self, buf: &mut UserBuffer, count: usize) -> (r: isize)
        requires
            old(buf).null || count <= old(buf).data@.len(),
            count <= isize::MAX,
        ensures
            ({
                let (d, bytes, ret) = old(self).read_spec(old(buf).null, old(buf).data@, count);
                *final(self) == d && final(buf).data@ == bytes && r == ret
            }),
            final(buf).null == old(buf).null,
            final(buf).data@.len() == old(buf).data@.len(),
    ;

    /// Write up to `count` bytes from `buf` to the device.
    fn write(&mut self, buf: &UserBuffer, count: usize) -> (r: isize)
        requires
            buf.null || count <= buf.data@.len(),
            count <= isize::MAX,
        ensures
            ({
                let (d, ret) = old(self).write_spec(buf.null, buf.data@, count);
                *final(self) == d && r == ret
            }),
    ;

    /// Seek to an offset.
    fn seek(&mut self, offset: isize, whence: i32) -> (r: isize)
        ensures
            ({
                let (d, ret) = old(self).seek_spec(offset, whence);
                *final(self) == d && r == ret
            }),
    ;

    /// Handle an ioctl command; `arg` is the raw argument address.
    fn ioctl(&mut self, cmd: IoctlCommand, arg: usize) -> (r: isize)
        ensures
            ({
                let (d, ret) = old(self).ioctl_spec(cmd, arg);
                *final(self) == d && r == ret
            }),
    ;

    /// Release resources; invoked exactly once, when the owning
    /// descriptor is closed.
    fn release(&mut self) -> (r: isize)
        ensures
            ({
                let (d, ret) = old(self).release_spec();
                *final(self) == d && r == ret
            }),
    ;
}

/// Manufactures one fresh, independent device instance per call.
///
/// Factories are stateless or hold only immutable configuration, so the
/// created device is a function of the factory value alone.
pub trait DeviceFactory: Sized {
    /// The device type this factory manufactures.
    type Dev: Device;

    /// The device a `create` call returns.
    spec fn create_spec(&self) -> Self::Dev;

    /// Manufacture a fresh device instance.
    fn create(&self) -> (dev: Self::Dev)
        ensures
            dev == self.create_spec(),
    ;
}

/// Default `release`: succeed with 0.
pub fn noop_close() -> (r: isize)
    ensures
        r == 0,
{
    0
}

/// Default `seek`: the device is not seekable.
pub fn noop_seek(_offset: isize, _whence: i32) -> (r: isize)
    ensures
        r == (-ESPIPE) as isize,
{
    -ESPIPE
}

/// Default `ioctl`: the device understands no command.
pub fn noop_ioctl(_request: usize, _arg: usize) -> (r: isize)
    ensures
        r == (-ENOTTY) as isize,
{
    -ENOTTY
}

/// Default `read`: the device cannot be read.
pub fn noop_read(_count: usize) -> (r: isize)
    ensures
        r == (-EBADF) as isize,
{
    -EBADF
}

/// Default `write`: the device cannot be written.
pub fn noop_write(_count: usize) -> (r: isize)
    ensures
        r == (-EBADF) as isize,
{
    -EBADF
}

} // verus!
