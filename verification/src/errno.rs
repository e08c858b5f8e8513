//! POSIX-style error numbers, as negated return values.
//!
//! Every dispatch operation in this crate reports failure as the negated
//! error number, mirroring the raw syscall return convention.

use vstd::prelude::*;

verus! {

/// No such file or directory.
pub const ENOENT: isize = 2;

/// Bad file descriptor.
pub const EBADF: isize = 9;

/// Bad address.
pub const EFAULT: isize = 14;

/// Invalid argument.
pub const EINVAL: isize = 22;

/// Too many open files.
pub const EMFILE: isize = 24;

/// Inappropriate ioctl for device.
pub const ENOTTY: isize = 25;

/// Illegal seek.
pub const ESPIPE: isize = 29;

/// File name too long.
pub const ENAMETOOLONG: isize = 36;

/// Function not implemented.
pub const ENOSYS: isize = 38;

} // verus!
