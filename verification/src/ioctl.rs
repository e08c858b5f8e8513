//! ioctl command encoding and decoding.
//!
//! A command word packs four fields under the conventional Linux layout:
//! - bits 0..8:   sequence number (NR)
//! - bits 8..16:  type/magic (TYPE)
//! - bits 16..30: size (SIZE, 14 bits)
//! - bits 30..32: direction (DIR)

use vstd::prelude::*;

verus! {

/// Bit position of the magic field in a raw command word.
pub const TYPESHIFT: usize = 8;

/// Bit position of the size field in a raw command word.
pub const SIZESHIFT: usize = 16;

/// Bit position of the direction field in a raw command word.
pub const DIRSHIFT: usize = 30;

/// Largest value the 14-bit size field can carry.
pub const MAX_IOCTL_SIZE: usize = 0x3fff;

/// Direction of the ioctl data transfer.
#[derive(Debug, Clone, Copy, PartialEq, Eq, Structural)]
pub enum IoctlDir {
    NoData,
    Read,
    Write,
    ReadWrite,
}

/// The two direction bits a command word carries for each direction.
///
/// The wire mapping is 0 = none, 1 = write, 2 = read, 3 = both; this is the
/// one canonical mapping used by both `from_raw` and `to_raw`.
pub open spec fn dir_bits(dir: IoctlDir) -> usize {
    match dir {
        IoctlDir::NoData => 0,
        IoctlDir::Write => 1,
        IoctlDir::Read => 2,
        IoctlDir::ReadWrite => 3,
    }
}

/// The direction that two direction bits decode to; inverse of `dir_bits`
/// on values below 4.
pub open spec fn dir_of_bits(bits: usize) -> IoctlDir {
    if bits == 1 {
        IoctlDir::Write
    } else if bits == 2 {
        IoctlDir::Read
    } else if bits == 3 {
        IoctlDir::ReadWrite
    } else {
        IoctlDir::NoData
    }
}

impl IoctlDir {
    /// The direction encoded by the low two bits of `val`, mapping the
    /// enum's own order: 0 = none, 1 = read, 2 = write, 3 = both.
    ///
    /// This reads the abstract representation of the enum itself, not the
    /// wire bits of a command word; those go through `dir_of_bits`.
    pub fn from_u8(val: u8) -> (dir: IoctlDir)
        ensures
            dir == (if val % 4 == 0 {
                IoctlDir::NoData
            } else if val % 4 == 1 {
                IoctlDir::Read
            } else if val % 4 == 2 {
                IoctlDir::Write
            } else {
                IoctlDir::ReadWrite
            }),
    {
        let low = val & 0b11;
        assert(val & 0b11 == val % 4) by (bit_vector);
        if low == 0 {
            IoctlDir::NoData
        } else if low == 1 {
            IoctlDir::Read
        } else if low == 2 {
            IoctlDir::Write
        } else {
            IoctlDir::ReadWrite
        }
    }
}

/// A decoded ioctl command.
#[derive(Debug, Clone, Copy, PartialEq, Eq, Structural)]
pub struct IoctlCommand {
    pub dir: IoctlDir,
    pub size: u16,
    pub magic: u8,
    pub nr: u8,
}

/// The raw word that a command encodes to.
pub open spec fn encode_spec(cmd: IoctlCommand) -> usize {
    (cmd.nr as usize) | (cmd.magic as usize) << 8 | (cmd.size as usize) << 16 | dir_bits(cmd.dir)
        << 30
}

/// The command that a raw word decodes to.
pub open spec fn decode_spec(raw: usize) -> IoctlCommand {
    IoctlCommand {
        dir: dir_of_bits((raw >> 30) & 0x3),
        size: ((raw >> 16) & 0x3fff) as u16,
        magic: (raw >> 8) as u8,
        nr: raw as u8,
    }
}

/// A command is valid when its size fits the 14-bit field; all other
/// fields fill their whole field by type.
pub open spec fn valid_command(cmd: IoctlCommand) -> bool {
    cmd.size <= MAX_IOCTL_SIZE
}

impl IoctlCommand {
    /// Create a new command.
    ///
    /// The size must fit the 14-bit size field; a larger size has no
    /// encoding and is a programming error at the call site.
    pub fn new(dir: IoctlDir, magic: u8, nr: u8, size: usize) -> (cmd: IoctlCommand)
        requires
            size <= MAX_IOCTL_SIZE,
        ensures
            cmd == (IoctlCommand { dir, magic, nr, size: size as u16 }),
            valid_command(cmd),
    {
        IoctlCommand { dir, magic, nr, size: size as u16 }
    }

    /// Decode a raw command word into its components.
    pub fn from_raw(raw: usize) -> (cmd: IoctlCommand)
        ensures
            cmd == decode_spec(raw),
            valid_command(cmd),
    {
        let nr = raw as u8;
        let magic = (raw >> TYPESHIFT) as u8;
        let size = ((raw >> SIZESHIFT) & 0x3fff) as u16;
        let dir_val = (raw >> DIRSHIFT) & 0x3;

        assert(((raw >> 16) & 0x3fff) as u16 <= 0x3fff) by (bit_vector);

        let dir = if dir_val == 1 {
            IoctlDir::Write
        } else if dir_val == 2 {
            IoctlDir::Read
        } else if dir_val == 3 {
            IoctlDir::ReadWrite
        } else {
            IoctlDir::NoData
        };

        IoctlCommand { dir, size, magic, nr }
    }

    /// Encode the command into a raw word.
    pub fn to_raw(&self) -> (raw: usize)
        ensures
            raw == encode_spec(*self),
    {
        let dir_bits: usize = match self.dir {
            IoctlDir::NoData => 0,
            IoctlDir::Write => 1,
            IoctlDir::Read => 2,
            IoctlDir::ReadWrite => 3,
        };

        (self.nr as usize) | (self.magic as usize) << TYPESHIFT | (self.size as usize) << SIZESHIFT
            | dir_bits << DIRSHIFT
    }
}

/// Decoding then encoding reproduces every raw word that fits the 32-bit
/// command layout: the two directions are exact inverses, wire side.
pub proof fn lemma_encode_decode(raw: usize)
    requires
        raw < 0x1_0000_0000,
    ensures
        encode_spec(decode_spec(raw)) == raw,
{
    assert((raw >> 30) & 0x3 < 4) by (bit_vector);
    assert(dir_bits(dir_of_bits((raw >> 30) & 0x3)) == (raw >> 30) & 0x3);
    assert((raw as u8 as usize) | ((raw >> 8) as u8 as usize) << 8 | ((((raw >> 16)
        & 0x3fff) as u16) as usize) << 16 | ((raw >> 30) & 0x3) << 30 == raw) by (bit_vector)
        requires
            raw < 0x1_0000_0000,
    ;
}

/// Encoding then decoding reproduces every valid command: the two
/// directions are exact inverses, command side.
pub proof fn lemma_decode_encode(cmd: IoctlCommand)
    requires
        valid_command(cmd),
    ensures
        decode_spec(encode_spec(cmd)) == cmd,
{
    let nr = cmd.nr;
    let magic = cmd.magic;
    let size = cmd.size;
    let db = dir_bits(cmd.dir);
    assert(db < 4);
    assert(dir_of_bits(db) == cmd.dir);
    assert(size <= 0x3fff && db < 4 ==> ((nr as usize) | (magic as usize) << 8 | (size as usize)
        << 16 | db << 30) as u8 == nr && (((nr as usize) | (magic as usize) << 8 | (size as usize)
        << 16 | db << 30) >> 8) as u8 == magic && ((((nr as usize) | (magic as usize) << 8 | (
    size as usize) << 16 | db << 30) >> 16) & 0x3fff) as u16 == size && (((nr as usize) | (
    magic as usize) << 8 | (size as usize) << 16 | db << 30) >> 30) & 0x3 == db) by (bit_vector);
}

} // verus!
