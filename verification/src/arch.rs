//! The architecture operation set: thread-context and trap-frame
//! manipulation for a RISC-V style register file.
//!
//! A trap frame is the full register snapshot captured on exception or
//! syscall entry; a thread context is the minimal callee-saved state
//! needed to resume a voluntarily suspended thread. Both are plain
//! register records here; locating the live frame through a reserved
//! hardware register, and the context-switch primitive itself, are
//! hardware edges that stay outside the verified library.

use vstd::prelude::*;

verus! {

/// Number of syscall argument registers a trap frame exposes.
pub const TRAP_ARG_COUNT: usize = 6;

/// The register snapshot captured at trap, exception or syscall entry.
///
/// `a0` doubles as the first syscall argument and the return-value
/// register; `a7` carries the syscall number; `mepc`, `mcause` and
/// `mtval` hold the trapping program counter, the trap cause and the
/// faulting address.
#[derive(Debug, Clone, Copy, PartialEq, Eq, Structural)]
pub struct TrapFrame {
    pub mepc: usize,
    pub mcause: usize,
    pub mtval: usize,
    pub sp: usize,
    pub tp: usize,
    pub a0: usize,
    pub a1: usize,
    pub a2: usize,
    pub a3: usize,
    pub a4: usize,
    pub a5: usize,
    pub a6: usize,
    pub a7: usize,
}

/// The frame `trap_frame_init` produces: every register cleared, then
/// the user stack pointer, the thread-local pointer and the program
/// counter set, and the return-value register forced to zero.
pub open spec fn trap_frame_init_spec(user_sp: usize, user_tls: usize, pc: usize) -> TrapFrame {
    TrapFrame {
        mepc: pc,
        mcause: 0,
        mtval: 0,
        sp: user_sp,
        tp: user_tls,
        a0: 0,
        a1: 0,
        a2: 0,
        a3: 0,
        a4: 0,
        a5: 0,
        a6: 0,
        a7: 0,
    }
}

/// The syscall argument in slot `idx`: argument registers 0 through 5,
/// and zero for any out-of-range slot (a deliberate soft failure that
/// keeps the dispatch path branch-free of error handling).
pub open spec fn trap_frame_arg_spec(frame: TrapFrame, idx: usize) -> usize {
    if idx == 0 {
        frame.a0
    } else if idx == 1 {
        frame.a1
    } else if idx == 2 {
        frame.a2
    } else if idx == 3 {
        frame.a3
    } else if idx == 4 {
        frame.a4
    } else if idx == 5 {
        frame.a5
    } else {
        0
    }
}

impl TrapFrame {
    /// A frame with every register cleared.
    pub fn new() -> (frame: TrapFrame)
        ensures
            frame == trap_frame_init_spec(0, 0, 0),
    {
        TrapFrame {
            mepc: 0,
            mcause: 0,
            mtval: 0,
            sp: 0,
            tp: 0,
            a0: 0,
            a1: 0,
            a2: 0,
            a3: 0,
            a4: 0,
            a5: 0,
            a6: 0,
            a7: 0,
        }
    }
}

/// Copy the whole register snapshot of `src` into `dst`.
pub fn trap_frame_clone(dst: &mut TrapFrame, src: &TrapFrame)
    ensures
        *final(dst) == *src,
{
    *dst = *src;
}

/// Initialize `regs` for first entry to user code: clear every register,
/// set the user stack pointer, the thread-local pointer and the program
/// counter, and force the return-value register to zero, so a forked
/// child observes 0.
pub fn trap_frame_init(regs: &mut TrapFrame, user_sp: usize, user_tls: usize, pc: usize)
    ensures
        *final(regs) == trap_frame_init_spec(user_sp, user_tls, pc),
{
    *regs = TrapFrame::new();
    regs.sp = user_sp;
    regs.tp = user_tls;
    regs.mepc = pc;
    regs.a0 = 0;
}

/// Set the return-value register.
pub fn trap_frame_set_retval(regs: &mut TrapFrame, val: usize)
    ensures
        *final(regs) == (TrapFrame { a0: val, ..*old(regs) }),
{
    regs.a0 = val;
}

/// Set the stack pointer.
pub fn trap_frame_set_sp(regs: &mut TrapFrame, sp: usize)
    ensures
        *final(regs) == (TrapFrame { sp, ..*old(regs) }),
{
    regs.sp = sp;
}

/// Set the thread-local pointer.
pub fn trap_frame_set_tp(regs: &mut TrapFrame, tp: usize)
    ensures
        *final(regs) == (TrapFrame { tp, ..*old(regs) }),
{
    regs.tp = tp;
}

/// Set the program counter.
pub fn trap_frame_set_pc(regs: &mut TrapFrame, pc: usize)
    ensures
        *final(regs) == (TrapFrame { mepc: pc, ..*old(regs) }),
{
    regs.mepc = pc;
}

/// The trapping program counter.
pub fn trap_frame_get_pc(regs: &TrapFrame) -> (pc: usize)
    ensures
        pc == regs.mepc,
{
    regs.mepc
}

/// The syscall number.
pub fn trap_frame_get_nr(regs: &TrapFrame) -> (nr: usize)
    ensures
        nr == regs.a7,
{
    regs.a7
}

/// The syscall argument in slot `idx`; 0 for slots past the sixth.
pub fn trap_frame_get_arg(regs: &TrapFrame, idx: usize) -> (arg: usize)
    ensures
        arg == trap_frame_arg_spec(*regs, idx),
{
    if idx == 0 {
        regs.a0
    } else if idx == 1 {
        regs.a1
    } else if idx == 2 {
        regs.a2
    } else if idx == 3 {
        regs.a3
    } else if idx == 4 {
        regs.a4
    } else if idx == 5 {
        regs.a5
    } else {
        0
    }
}

/// The trap cause.
pub fn trap_frame_get_cause(regs: &TrapFrame) -> (cause: usize)
    ensures
        cause == regs.mcause,
{
    regs.mcause
}

/// The faulting address.
pub fn trap_frame_get_fault_addr(regs: &TrapFrame) -> (addr: usize)
    ensures
        addr == regs.mtval,
{
    regs.mtval
}

/// Cloning a parent's trap frame and then applying the fork-child
/// initialization leaves a return value of zero in the child frame,
/// whatever the parent's return-value register held.
pub proof fn lemma_fork_child_returns_zero(
    parent: TrapFrame,
    user_sp: usize,
    user_tls: usize,
    pc: usize,
)
    ensures
        trap_frame_arg_spec(trap_frame_init_spec(user_sp, user_tls, pc), 0) == 0,
        trap_frame_init_spec(user_sp, user_tls, pc).a0 == 0,
{
}

/// The minimal saved state needed to resume a suspended thread: kernel
/// stack pointer, thread anchor, and the address execution resumes at.
#[derive(Debug, Clone, Copy, PartialEq, Eq, Structural)]
pub struct ThreadContext {
    /// Saved kernel stack pointer.
    pub sp: usize,
    /// Saved thread pointer; by convention it carries the thread anchor,
    /// the address of the owning thread's control block.
    pub tp: usize,
    /// Saved return address: where the thread resumes.
    pub ra: usize,
    /// Saved return-value register.
    pub retval: usize,
}

/// The context `thread_ctx_init` produces.
pub open spec fn thread_ctx_init_spec(anchor: usize, kstack_top: usize, resume_at: usize)
    -> ThreadContext {
    ThreadContext { sp: kstack_top, tp: anchor, ra: resume_at, retval: 0 }
}

/// Initialize a thread context so that switching into it resumes
/// execution at `resume_at` (the architecture's fork-return trampoline,
/// whose address only the hardware layer knows) on the kernel stack
/// `kstack_top`, with the owning thread's anchor installed where the
/// switch convention expects it.
pub fn thread_ctx_init(ctx: &mut ThreadContext, anchor: usize, kstack_top: usize, resume_at: usize)
    ensures
        *final(ctx) == thread_ctx_init_spec(anchor, kstack_top, resume_at),
{
    ctx.sp = kstack_top;
    ctx.tp = anchor;
    ctx.ra = resume_at;
    ctx.retval = 0;
}

/// Set the saved stack pointer.
pub fn thread_ctx_set_sp(ctx: &mut ThreadContext, sp: usize)
    ensures
        *final(ctx) == (ThreadContext { sp, ..*old(ctx) }),
{
    ctx.sp = sp;
}

/// Set the saved thread pointer.
pub fn thread_ctx_set_tp(ctx: &mut ThreadContext, tp: usize)
    ensures
        *final(ctx) == (ThreadContext { tp, ..*old(ctx) }),
{
    ctx.tp = tp;
}

/// Set the saved return address.
pub fn thread_ctx_set_ra(ctx: &mut ThreadContext, ra: usize)
    ensures
        *final(ctx) == (ThreadContext { ra, ..*old(ctx) }),
{
    ctx.ra = ra;
}

/// Set the saved return-value register.
pub fn thread_ctx_set_retval(ctx: &mut ThreadContext, val: usize)
    ensures
        *final(ctx) == (ThreadContext { retval: val, ..*old(ctx) }),
{
    ctx.retval = val;
}


/// The byte size a trap-frame allocation needs.
pub fn trap_frame_size() -> (r: usize)
    ensures
        r == vstd::layout::size_of::<TrapFrame>(),
{
    core::mem::size_of::<TrapFrame>()
}

/// The alignment a trap-frame allocation needs.
pub fn trap_frame_align() -> (r: usize)
    ensures
        r == vstd::layout::align_of::<TrapFrame>(),
{
    core::mem::align_of::<TrapFrame>()
}

/// The byte size a thread-context allocation needs.
pub fn thread_ctx_size() -> (r: usize)
    ensures
        r == vstd::layout::size_of::<ThreadContext>(),
{
    core::mem::size_of::<ThreadContext>()
}

/// The alignment a thread-context allocation needs.
pub fn thread_ctx_align() -> (r: usize)
    ensures
        r == vstd::layout::align_of::<ThreadContext>(),
{
    core::mem::align_of::<ThreadContext>()
}

} // verus!
