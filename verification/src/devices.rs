//! The built-in device drivers: null, zero, a pseudo-random source, and
//! the console, each with its factory, plus one closed driver family that
//! bundles them so a single descriptor table can hold any of them.

use crate::device::{Device, DeviceFactory, UserBuffer};
use crate::vfs::FdEntry;
use crate::errno::{EBADF, EFAULT, ENOTTY, ESPIPE};
use crate::ioctl::IoctlCommand;
use vstd::prelude::*;

verus! {

/// The data sink and empty source: reads return end-of-file, writes are
/// swallowed whole.
pub struct NullDevice;

impl Device for NullDevice {
    open spec fn read_spec(self, null: bool, data: Seq<u8>, count: usize) -> (
        NullDevice,
        Seq<u8>,
        isize,
    ) {
        (self, data, 0)
    }

    open spec fn write_spec(self, null: bool, data: Seq<u8>, count: usize) -> (NullDevice, isize) {
        (self, count as isize)
    }

    open spec fn seek_spec(self, offset: isize, whence: i32) -> (NullDevice, isize) {
        (self, (-ESPIPE) as isize)
    }

    open spec fn ioctl_spec(self, cmd: IoctlCommand, arg: usize) -> (NullDevice, isize) {
        (self, (-ENOTTY) as isize)
    }

    open spec fn release_spec(self) -> (NullDevice, isize) {
        (self, 0)
    }

    fn read(&mut self, buf: &mut UserBuffer, count: usize) -> (r: isize) {
        0
    }

    fn write(&mut self, buf: &UserBuffer, count: usize) -> (r: isize) {
        count as isize
    }

    fn seek(&mut self, offset: isize, whence: i32) -> (r: isize) {
        crate::device::noop_seek(offset, whence)
    }

    fn ioctl(&mut self, cmd: IoctlCommand, arg: usize) -> (r: isize) {
        crate::device::noop_ioctl(cmd.to_raw(), arg)
    }

    fn release(&mut self) -> (r: isize) {
        crate::device::noop_close()
    }
}

/// Manufactures [`NullDevice`] instances.
pub struct NullFactory;

impl DeviceFactory for NullFactory {
    type Dev = NullDevice;

    open spec fn create_spec(&self) -> NullDevice {
        NullDevice
    }

    fn create(&self) -> (dev: NullDevice) {
        NullDevice
    }
}

/// The bytes a zero-device read leaves in a buffer: the first `count`
/// bytes cleared, the rest untouched.
pub open spec fn zero_filled(data: Seq<u8>, count: usize) -> Seq<u8> {
    Seq::new(data.len(), |i: int| if i < count { 0u8 } else { data[i] })
}

/// The endless source of zero bytes; writes are swallowed whole.
pub struct ZeroDevice;

impl Device for ZeroDevice {
    open spec fn read_spec(self, null: bool, data: Seq<u8>, count: usize) -> (
        ZeroDevice,
        Seq<u8>,
        isize,
    ) {
        if count == 0 {
            (self, data, 0)
        } else if null {
            (self, data, (-EFAULT) as isize)
        } else {
            (self, zero_filled(data, count), count as isize)
        }
    }

    open spec fn write_spec(self, null: bool, data: Seq<u8>, count: usize) -> (ZeroDevice, isize) {
        (self, count as isize)
    }

    open spec fn seek_spec(self, offset: isize, whence: i32) -> (ZeroDevice, isize) {
        (self, (-ESPIPE) as isize)
    }

    open spec fn ioctl_spec(self, cmd: IoctlCommand, arg: usize) -> (ZeroDevice, isize) {
        (self, (-ENOTTY) as isize)
    }

    open spec fn release_spec(self) -> (ZeroDevice, isize) {
        (self, 0)
    }

    fn read(&mut self, buf: &mut UserBuffer, count: usize) -> (r: isize) {
        if count == 0 {
            return 0;
        }
        if buf.null {
            return -EFAULT;
        }
        let ghost orig = buf.data@;
        let mut i: usize = 0;
        while i < count
            invariant
                i <= count,
                buf.null == old(buf).null,
                count <= buf.data@.len(),
                buf.data@.len() == orig.len(),
                forall|j: int| 0 <= j < i ==> buf.data@[j] == 0u8,
                forall|j: int| i <= j < orig.len() ==> buf.data@[j] == orig[j],
            decreases count - i,
        {
            buf.data[i] = 0;
            i = i + 1;
        }
        assert(buf.data@ =~= zero_filled(orig, count));
        count as isize
    }

    fn write(&mut self, buf: &UserBuffer, count: usize) -> (r: isize) {
        count as isize
    }

    fn seek(&mut self, offset: isize, whence: i32) -> (r: isize) {
        crate::device::noop_seek(offset, whence)
    }

    fn ioctl(&mut self, cmd: IoctlCommand, arg: usize) -> (r: isize) {
        crate::device::noop_ioctl(cmd.to_raw(), arg)
    }

    fn release(&mut self) -> (r: isize) {
        crate::device::noop_close()
    }
}

/// Manufactures [`ZeroDevice`] instances.
pub struct ZeroFactory;

impl DeviceFactory for ZeroFactory {
    type Dev = ZeroDevice;

    open spec fn create_spec(&self) -> ZeroDevice {
        ZeroDevice
    }

    fn create(&self) -> (dev: ZeroDevice) {
        ZeroDevice
    }
}

/// The multiplier of the mixing step shared with the bootstrap entropy
/// generator.
pub const RNG_MULTIPLIER: u64 = 0x5851f42d4c957f2d;

/// The seed every fresh random-source device starts from.
pub const RNG_SEED: u64 = 0x123456789abcdef0;

/// One step of the multiply-xorshift generator.
pub open spec fn rng_step(s: u64) -> u64 {
    let t = vstd::wrapping::u64_specs::wrapping_mul(s, RNG_MULTIPLIER);
    t ^ (t >> 33)
}

/// The generator state after `n` steps.
pub open spec fn rng_state_after(s: u64, n: nat) -> u64
    decreases n,
{
    if n == 0 {
        s
    } else {
        rng_step(rng_state_after(s, (n - 1) as nat))
    }
}

/// The `i`-th byte a generator in state `s` produces.
pub open spec fn rng_byte(s: u64, i: int) -> u8 {
    rng_state_after(s, (i + 1) as nat) as u8
}

/// The bytes a random read leaves in a buffer: the first `count` bytes
/// drawn from the generator, the rest untouched.
pub open spec fn rng_filled(s: u64, data: Seq<u8>, count: usize) -> Seq<u8> {
    Seq::new(data.len(), |i: int| if i < count { rng_byte(s, i) } else { data[i] })
}

/// A deterministic pseudo-random byte source.
///
/// Each instance owns its generator state, seeded at creation; reading
/// draws bytes and advances the state.
pub struct UrandomDevice {
    /// Current generator state.
    pub state: u64,
}

impl Device for UrandomDevice {
    open spec fn read_spec(self, null: bool, data: Seq<u8>, count: usize) -> (
        UrandomDevice,
        Seq<u8>,
        isize,
    ) {
        if count != 0 && null {
            (self, data, (-EFAULT) as isize)
        } else {
            (
                UrandomDevice { state: rng_state_after(self.state, count as nat) },
                rng_filled(self.state, data, count),
                count as isize,
            )
        }
    }

    open spec fn write_spec(self, null: bool, data: Seq<u8>, count: usize) -> (
        UrandomDevice,
        isize,
    ) {
        (self, (-EBADF) as isize)
    }

    open spec fn seek_spec(self, offset: isize, whence: i32) -> (UrandomDevice, isize) {
        (self, (-ESPIPE) as isize)
    }

    open spec fn ioctl_spec(self, cmd: IoctlCommand, arg: usize) -> (UrandomDevice, isize) {
        (self, (-ENOTTY) as isize)
    }

    open spec fn release_spec(self) -> (UrandomDevice, isize) {
        (self, 0)
    }

    fn read(&mut self, buf: &mut UserBuffer, count: usize) -> (r: isize) {
        if count != 0 && buf.null {
            return -EFAULT;
        }
        let ghost seed = self.state;
        let ghost orig = buf.data@;
        let mut i: usize = 0;
        while i < count
            invariant
                i <= count,
                buf.null == old(buf).null,
                !buf.null || count == 0,
                count <= buf.data@.len() || buf.null,
                buf.data@.len() == orig.len(),
                self.state == rng_state_after(seed, i as nat),
                forall|j: int| 0 <= j < i ==> buf.data@[j] == rng_byte(seed, j),
                forall|j: int| i <= j < orig.len() ==> buf.data@[j] == orig[j],
            decreases count - i,
        {
            let t = self.state.wrapping_mul(RNG_MULTIPLIER);
            let next = t ^ (t >> 33);
            buf.data[i] = next as u8;
            self.state = next;
            assert(rng_state_after(seed, (i + 1) as nat) == rng_step(rng_state_after(
                seed,
                i as nat,
            )));
            i = i + 1;
        }
        assert(buf.data@ =~= rng_filled(seed, orig, count));
        count as isize
    }

    fn write(&mut self, buf: &UserBuffer, count: usize) -> (r: isize) {
        crate::device::noop_write(count)
    }

    fn seek(&mut self, offset: isize, whence: i32) -> (r: isize) {
        crate::device::noop_seek(offset, whence)
    }

    fn ioctl(&mut self, cmd: IoctlCommand, arg: usize) -> (r: isize) {
        crate::device::noop_ioctl(cmd.to_raw(), arg)
    }

    fn release(&mut self) -> (r: isize) {
        crate::device::noop_close()
    }
}

/// Manufactures freshly seeded [`UrandomDevice`] instances.
pub struct UrandomFactory;

impl DeviceFactory for UrandomFactory {
    type Dev = UrandomDevice;

    open spec fn create_spec(&self) -> UrandomDevice {
        UrandomDevice { state: RNG_SEED }
    }

    fn create(&self) -> (dev: UrandomDevice) {
        UrandomDevice { state: RNG_SEED }
    }
}

/// A console endpoint.
///
/// Reading drains the queued input bytes and reports end-of-file once
/// they are gone; the edge that captures real input fills the queue
/// when it binds the console. Writing hands the bytes to the console
/// transport and reports them all taken when one is bound, and fails
/// with a bad-descriptor error when none is. The transport itself (a
/// raw hardware trampoline) lives outside the verified library, so the
/// write model narrows it: a bound transport is taken to accept every
/// byte, where real hardware could report a short or failed write.
pub struct ConsoleDevice {
    /// True when an output transport is bound.
    pub can_write: bool,
    /// The queued input bytes, fixed when the console is bound.
    pub input: Vec<u8>,
    /// How much of the queue reads have already drained.
    pub pos: usize,
}

/// How many queued input bytes a console still holds.
pub open spec fn console_avail(c: ConsoleDevice) -> int {
    if c.pos <= c.input@.len() {
        c.input@.len() - c.pos
    } else {
        0
    }
}

impl ConsoleDevice {
    /// A console bound to an output transport, with no queued input.
    pub fn output_only() -> (c: ConsoleDevice)
        ensures
            c.can_write,
            console_avail(c) == 0,
            c.pos == 0,
    {
        ConsoleDevice { can_write: true, input: Vec::new(), pos: 0 }
    }

    /// An input console holding the queued bytes, with no output
    /// transport.
    pub fn with_input(input: Vec<u8>) -> (c: ConsoleDevice)
        ensures
            !c.can_write,
            c.input@ == input@,
            c.pos == 0,
    {
        ConsoleDevice { can_write: false, input, pos: 0 }
    }
}

impl Device for ConsoleDevice {
    open spec fn read_spec(self, null: bool, data: Seq<u8>, count: usize) -> (
        ConsoleDevice,
        Seq<u8>,
        isize,
    ) {
        if count == 0 {
            (self, data, 0)
        } else if null {
            (self, data, (-EFAULT) as isize)
        } else {
            let n = if count <= console_avail(self) {
                count as int
            } else {
                console_avail(self)
            };
            (
                ConsoleDevice { pos: (self.pos + n) as usize, ..self },
                Seq::new(
                    data.len(),
                    |i: int|
                        if i < n {
                            self.input@[self.pos + i]
                        } else {
                            data[i]
                        },
                ),
                n as isize,
            )
        }
    }

    open spec fn write_spec(self, null: bool, data: Seq<u8>, count: usize) -> (
        ConsoleDevice,
        isize,
    ) {
        if self.can_write {
            (self, count as isize)
        } else {
            (self, (-EBADF) as isize)
        }
    }

    open spec fn seek_spec(self, offset: isize, whence: i32) -> (ConsoleDevice, isize) {
        (self, (-ESPIPE) as isize)
    }

    open spec fn ioctl_spec(self, cmd: IoctlCommand, arg: usize) -> (ConsoleDevice, isize) {
        (self, (-ENOTTY) as isize)
    }

    open spec fn release_spec(self) -> (ConsoleDevice, isize) {
        (self, 0)
    }

    fn read(&mut self, buf: &mut UserBuffer, count: usize) -> (r: isize) {
        if count == 0 {
            return 0;
        }
        if buf.null {
            return -EFAULT;
        }
        let avail = if self.pos <= self.input.len() {
            self.input.len() - self.pos
        } else {
            0
        };
        let n = if count <= avail {
            count
        } else {
            avail
        };
        let ghost orig = buf.data@;
        let ghost pos0 = self.pos;
        let mut j: usize = 0;
        while j < n
            invariant
                j <= n,
                buf.null == old(buf).null,
                n <= count,
                count <= buf.data@.len(),
                buf.data@.len() == orig.len(),
                *self == *old(self),
                pos0 == self.pos,
                n <= console_avail(*self),
                n == 0 || pos0 + n <= self.input@.len(),
                self.input@.len() <= usize::MAX,
                forall|i: int| 0 <= i < j ==> buf.data@[i] == self.input@[pos0 + i],
                forall|i: int| j <= i < orig.len() ==> buf.data@[i] == orig[i],
            decreases n - j,
        {
            buf.data[j] = self.input[self.pos + j];
            j = j + 1;
        }
        self.pos = self.pos + n;
        proof {
            let (d, bytes, ret) = old(self).read_spec(old(buf).null, orig, count);
            assert(buf.data@ =~= bytes);
            assert(*self == d);
        }
        n as isize
    }

    fn write(&mut self, buf: &UserBuffer, count: usize) -> (r: isize) {
        if self.can_write {
            count as isize
        } else {
            crate::device::noop_write(count)
        }
    }

    fn seek(&mut self, offset: isize, whence: i32) -> (r: isize) {
        crate::device::noop_seek(offset, whence)
    }

    fn ioctl(&mut self, cmd: IoctlCommand, arg: usize) -> (r: isize) {
        crate::device::noop_ioctl(cmd.to_raw(), arg)
    }

    fn release(&mut self) -> (r: isize) {
        crate::device::noop_close()
    }
}


/// Zero-length transfers are always legal: on every built-in device a
/// zero-length read succeeds with 0 and leaves the buffer untouched,
/// whatever its address — null included — and a zero-length write
/// succeeds with 0 on every built-in device that accepts writes at all
/// (the random source rejects every write, and a console without an
/// output transport rejects them too, with a bad-descriptor error
/// whatever the length).
pub proof fn lemma_zero_length_io(
    null: bool,
    data: Seq<u8>,
    nd: NullDevice,
    zd: ZeroDevice,
    ud: UrandomDevice,
    cd: ConsoleDevice,
)
    ensures
        nd.read_spec(null, data, 0) == (nd, data, 0isize),
        zd.read_spec(null, data, 0) == (zd, data, 0isize),
        ud.read_spec(null, data, 0) == (ud, data, 0isize),
        cd.read_spec(null, data, 0) == (cd, data, 0isize),
        nd.write_spec(null, data, 0) == (nd, 0isize),
        zd.write_spec(null, data, 0) == (zd, 0isize),
        cd.can_write ==> cd.write_spec(null, data, 0) == (cd, 0isize),
{
    assert(rng_filled(ud.state, data, 0) =~= data);
    assert(rng_state_after(ud.state, 0) == ud.state);
    assert(ud.read_spec(null, data, 0).0 == (UrandomDevice { state: ud.state }));
}


/// A console bound to an output transport, ready to stand at a
/// standard-stream descriptor.
pub fn stdout_factory() -> (e: FdEntry<ConsoleDevice>)
    ensures
        e.device.can_write,
        console_avail(e.device) == 0,
{
    FdEntry { device: ConsoleDevice::output_only() }
}

/// A console for the error stream; same transport model as `stdout_factory`.
pub fn stderr_factory() -> (e: FdEntry<ConsoleDevice>)
    ensures
        e.device.can_write,
        console_avail(e.device) == 0,
{
    stdout_factory()
}

/// A console for the input stream, its queue still empty: it accepts
/// no writes, and reads report end-of-file until the binding edge
/// queues input.
pub fn stdin_factory() -> (e: FdEntry<ConsoleDevice>)
    ensures
        !e.device.can_write,
        console_avail(e.device) == 0,
{
    FdEntry { device: ConsoleDevice::with_input(Vec::new()) }
}

/// Any one of the built-in devices, so one descriptor table can hold
/// them side by side.
pub enum StandardDevice {
    Null(NullDevice),
    Zero(ZeroDevice),
    Urandom(UrandomDevice),
    Console(ConsoleDevice),
}

impl Device for StandardDevice {
    open spec fn read_spec(self, null: bool, data: Seq<u8>, count: usize) -> (
        StandardDevice,
        Seq<u8>,
        isize,
    ) {
        match self {
            StandardDevice::Null(d) => {
                let (d2, b, r) = d.read_spec(null, data, count);
                (StandardDevice::Null(d2), b, r)
            },
            StandardDevice::Zero(d) => {
                let (d2, b, r) = d.read_spec(null, data, count);
                (StandardDevice::Zero(d2), b, r)
            },
            StandardDevice::Urandom(d) => {
                let (d2, b, r) = d.read_spec(null, data, count);
                (StandardDevice::Urandom(d2), b, r)
            },
            StandardDevice::Console(d) => {
                let (d2, b, r) = d.read_spec(null, data, count);
                (StandardDevice::Console(d2), b, r)
            },
        }
    }

    open spec fn write_spec(self, null: bool, data: Seq<u8>, count: usize) -> (
        StandardDevice,
        isize,
    ) {
        match self {
            StandardDevice::Null(d) => {
                let (d2, r) = d.write_spec(null, data, count);
                (StandardDevice::Null(d2), r)
            },
            StandardDevice::Zero(d) => {
                let (d2, r) = d.write_spec(null, data, count);
                (StandardDevice::Zero(d2), r)
            },
            StandardDevice::Urandom(d) => {
                let (d2, r) = d.write_spec(null, data, count);
                (StandardDevice::Urandom(d2), r)
            },
            StandardDevice::Console(d) => {
                let (d2, r) = d.write_spec(null, data, count);
                (StandardDevice::Console(d2), r)
            },
        }
    }

    open spec fn seek_spec(self, offset: isize, whence: i32) -> (StandardDevice, isize) {
        match self {
            StandardDevice::Null(d) => {
                let (d2, r) = d.seek_spec(offset, whence);
                (StandardDevice::Null(d2), r)
            },
            StandardDevice::Zero(d) => {
                let (d2, r) = d.seek_spec(offset, whence);
                (StandardDevice::Zero(d2), r)
            },
            StandardDevice::Urandom(d) => {
                let (d2, r) = d.seek_spec(offset, whence);
                (StandardDevice::Urandom(d2), r)
            },
            StandardDevice::Console(d) => {
                let (d2, r) = d.seek_spec(offset, whence);
                (StandardDevice::Console(d2), r)
            },
        }
    }

    open spec fn ioctl_spec(self, cmd: IoctlCommand, arg: usize) -> (StandardDevice, isize) {
        match self {
            StandardDevice::Null(d) => {
                let (d2, r) = d.ioctl_spec(cmd, arg);
                (StandardDevice::Null(d2), r)
            },
            StandardDevice::Zero(d) => {
                let (d2, r) = d.ioctl_spec(cmd, arg);
                (StandardDevice::Zero(d2), r)
            },
            StandardDevice::Urandom(d) => {
                let (d2, r) = d.ioctl_spec(cmd, arg);
                (StandardDevice::Urandom(d2), r)
            },
            StandardDevice::Console(d) => {
                let (d2, r) = d.ioctl_spec(cmd, arg);
                (StandardDevice::Console(d2), r)
            },
        }
    }

    open spec fn release_spec(self) -> (StandardDevice, isize) {
        match self {
            StandardDevice::Null(d) => {
                let (d2, r) = d.release_spec();
                (StandardDevice::Null(d2), r)
            },
            StandardDevice::Zero(d) => {
                let (d2, r) = d.release_spec();
                (StandardDevice::Zero(d2), r)
            },
            StandardDevice::Urandom(d) => {
                let (d2, r) = d.release_spec();
                (StandardDevice::Urandom(d2), r)
            },
            StandardDevice::Console(d) => {
                let (d2, r) = d.release_spec();
                (StandardDevice::Console(d2), r)
            },
        }
    }

    fn read(&mut self, buf: &mut UserBuffer, count: usize) -> (r: isize) {
        match self {
            StandardDevice::Null(d) => d.read(buf, count),
            StandardDevice::Zero(d) => d.read(buf, count),
            StandardDevice::Urandom(d) => d.read(buf, count),
            StandardDevice::Console(d) => d.read(buf, count),
        }
    }

    fn write(&mut self, buf: &UserBuffer, count: usize) -> (r: isize) {
        match self {
            StandardDevice::Null(d) => d.write(buf, count),
            StandardDevice::Zero(d) => d.write(buf, count),
            StandardDevice::Urandom(d) => d.write(buf, count),
            StandardDevice::Console(d) => d.write(buf, count),
        }
    }

    fn seek(&mut self, offset: isize, whence: i32) -> (r: isize) {
        match self {
            StandardDevice::Null(d) => d.seek(offset, whence),
            StandardDevice::Zero(d) => d.seek(offset, whence),
            StandardDevice::Urandom(d) => d.seek(offset, whence),
            StandardDevice::Console(d) => d.seek(offset, whence),
        }
    }

    fn ioctl(&mut self, cmd: IoctlCommand, arg: usize) -> (r: isize) {
        match self {
            StandardDevice::Null(d) => d.ioctl(cmd, arg),
            StandardDevice::Zero(d) => d.ioctl(cmd, arg),
            StandardDevice::Urandom(d) => d.ioctl(cmd, arg),
            StandardDevice::Console(d) => d.ioctl(cmd, arg),
        }
    }

    fn release(&mut self) -> (r: isize) {
        match self {
            StandardDevice::Null(d) => d.release(),
            StandardDevice::Zero(d) => d.release(),
            StandardDevice::Urandom(d) => d.release(),
            StandardDevice::Console(d) => d.release(),
        }
    }
}

/// A factory for the built-in devices that are opened by path, so one
/// path registry can hold them side by side. Consoles are not opened
/// by path: the bring-up edge binds them to the standard-stream
/// descriptors directly.
pub enum StandardFactory {
    Null,
    Zero,
    Urandom,
}

impl DeviceFactory for StandardFactory {
    type Dev = StandardDevice;

    open spec fn create_spec(&self) -> StandardDevice {
        match *self {
            StandardFactory::Null => StandardDevice::Null(NullDevice),
            StandardFactory::Zero => StandardDevice::Zero(ZeroDevice),
            StandardFactory::Urandom => StandardDevice::Urandom(
                UrandomDevice { state: RNG_SEED },
            ),
        }
    }

    fn create(&self) -> (dev: StandardDevice) {
        match self {
            StandardFactory::Null => StandardDevice::Null(NullDevice),
            StandardFactory::Zero => StandardDevice::Zero(ZeroDevice),
            StandardFactory::Urandom => StandardDevice::Urandom(
                UrandomDevice { state: RNG_SEED },
            ),
        }
    }
}

/// The null-device factory, as a member of the built-in family.
pub fn make_null_factory() -> (f: StandardFactory)
    ensures
        f == StandardFactory::Null,
{
    StandardFactory::Null
}

/// The zero-device factory, as a member of the built-in family.
pub fn make_zero_factory() -> (f: StandardFactory)
    ensures
        f == StandardFactory::Zero,
{
    StandardFactory::Zero
}

/// The random-source factory, as a member of the built-in family.
pub fn make_urandom_factory() -> (f: StandardFactory)
    ensures
        f == StandardFactory::Urandom,
{
    StandardFactory::Urandom
}

} // verus!
