//! Hardware-abstraction and syscall-dispatch core of a small RISC-V
//! kernel, with machine-checked contracts.
//!
//! The pieces, leaf first:
//! - `ioctl`: the bit-packed ioctl command codec, with both directions
//!   proved exact inverses;
//! - `arch`: trap-frame and thread-context manipulation, the register
//!   records behind every syscall entry and context switch;
//! - `device` and `devices`: the capability set every driver
//!   implements, pinned to per-driver spec models, and the built-in
//!   null, zero, random-source and console drivers;
//! - `vfs`: the descriptor-table dispatcher that resolves paths to
//!   factories and routes every operation to the bound device;
//! - `user_ptr`: the tagged wrapper for raw userspace addresses;
//! - build-time companions (`template`, `linker`, `target`,
//!   `backtrace`, `stack`) for the text artifacts and bootstrap
//!   data the kernel's build needs.
//!
//! Hardware edges — touching real user memory, the context-switch
//! primitive, host file and process I/O — live outside this crate;
//! everything here works on explicit values and is verified.

use vstd::prelude::*;

mod arch;
mod backtrace;
mod device;
mod devices;
mod errno;
mod ioctl;
mod linker;
mod stack;
mod strings;
mod target;
mod template;
mod user_ptr;
mod vfs;

pub use arch::{
    thread_ctx_align, thread_ctx_init, thread_ctx_set_ra, thread_ctx_set_retval,
    thread_ctx_set_sp, thread_ctx_set_tp, thread_ctx_size, trap_frame_align, trap_frame_clone,
    trap_frame_get_arg, trap_frame_get_cause, trap_frame_get_fault_addr, trap_frame_get_nr,
    trap_frame_get_pc, trap_frame_init, trap_frame_set_pc, trap_frame_set_retval,
    trap_frame_set_sp, trap_frame_set_tp, trap_frame_size, ThreadContext, TrapFrame,
};
pub use backtrace::{clean_symbolized_line, parse_backtrace_unknown_frame, parse_hex};
pub use device::{
    noop_close, noop_ioctl, noop_read, noop_seek, noop_write, Device, DeviceFactory, UserBuffer,
};
pub use devices::{
    make_null_factory, make_urandom_factory, make_zero_factory, stderr_factory, stdin_factory,
    stdout_factory, ConsoleDevice, NullDevice, NullFactory, StandardDevice, StandardFactory,
    UrandomDevice, UrandomFactory, ZeroDevice, ZeroFactory,
};
pub use errno::{EBADF, EFAULT, EINVAL, EMFILE, ENAMETOOLONG, ENOENT, ENOSYS, ENOTTY, ESPIPE};
pub use ioctl::{IoctlCommand, IoctlDir};
pub use linker::{
    generate_linker_script, parse_address, GenerateLinkerArgs, LinkerConfig,
    LinkerGeneratorResult, DEFAULT_MEMORY_ORIGIN, DEFAULT_MEMORY_SIZE, DEFAULT_STACK_SIZE,
    LINKER_SCRIPT_TEMPLATE,
};
pub use stack::{generate_random_bytes, DownwardStack};
pub use strings::{
    hex_string, parse_decimal, parse_hexadecimal, str_eq_str, str_find, str_starts_with, trim_idx,
};
pub use target::{
    generate_target_spec, get_arch_spec, list_profiles, load_target_profile, parse_target_triple,
    ArchSpec, GenerateTargetArgs, LLVMConfig, TargetConfig, TargetProfile, TargetRenderOptions,
};
pub use template::{render, should_emit, Context, Frame, RenderError};
pub use user_ptr::UserPtr;
pub use vfs::{Fd, FdEntry, Vfs, VfsResult, MAX_FDS};

verus! {

} // verus!
