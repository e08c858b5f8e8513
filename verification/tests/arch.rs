use zeroos::{
    thread_ctx_init, trap_frame_clone, trap_frame_get_arg, trap_frame_get_cause,
    trap_frame_get_fault_addr, trap_frame_get_nr, trap_frame_get_pc, trap_frame_init,
    trap_frame_set_pc, trap_frame_set_retval, trap_frame_set_sp, trap_frame_set_tp, ThreadContext,
    TrapFrame,
};

fn sample_frame() -> TrapFrame {
    let mut f = TrapFrame::new();
    f.a0 = 42;
    f.a1 = 1;
    f.a2 = 2;
    f.a3 = 3;
    f.a4 = 4;
    f.a5 = 5;
    f.a7 = 64;
    f.mepc = 0x8000_0010;
    f.mcause = 8;
    f.mtval = 0xdead;
    f.sp = 0x9000_0000;
    f.tp = 0x9100_0000;
    f
}

#[test]
fn clone_copies_every_register() {
    let src = sample_frame();
    let mut dst = TrapFrame::new();
    trap_frame_clone(&mut dst, &src);
    assert_eq!(dst, src);
}

#[test]
fn cloned_then_initialized_frame_returns_zero() {
    // The parent returned 42 from its syscall; the fork-child override
    // must still observe 0.
    let parent = sample_frame();
    let mut child = TrapFrame::new();
    trap_frame_clone(&mut child, &parent);
    assert_eq!(child.a0, 42);
    trap_frame_init(&mut child, 0x7000_0000, 0x7100_0000, 0x8000_0000);
    assert_eq!(trap_frame_get_arg(&child, 0), 0);
    assert_eq!(child.a0, 0);
    assert_eq!(child.sp, 0x7000_0000);
    assert_eq!(child.tp, 0x7100_0000);
    assert_eq!(trap_frame_get_pc(&child), 0x8000_0000);
}

#[test]
fn accessors_read_the_designated_registers() {
    let f = sample_frame();
    assert_eq!(trap_frame_get_nr(&f), 64);
    assert_eq!(trap_frame_get_cause(&f), 8);
    assert_eq!(trap_frame_get_fault_addr(&f), 0xdead);
    assert_eq!(trap_frame_get_arg(&f, 0), 42);
    assert_eq!(trap_frame_get_arg(&f, 1), 1);
    assert_eq!(trap_frame_get_arg(&f, 5), 5);
    // Out-of-range argument slots read as zero, not as an error.
    assert_eq!(trap_frame_get_arg(&f, 6), 0);
    assert_eq!(trap_frame_get_arg(&f, 1000), 0);
}

#[test]
fn setters_change_only_their_register() {
    let mut f = sample_frame();
    trap_frame_set_retval(&mut f, 7);
    assert_eq!(f.a0, 7);
    trap_frame_set_sp(&mut f, 0x1234);
    assert_eq!(f.sp, 0x1234);
    trap_frame_set_tp(&mut f, 0x5678);
    assert_eq!(f.tp, 0x5678);
    trap_frame_set_pc(&mut f, 0x9abc);
    assert_eq!(f.mepc, 0x9abc);
    assert_eq!(f.a7, 64);
    assert_eq!(f.mcause, 8);
}

#[test]
fn thread_context_init_installs_the_convention() {
    let mut ctx = ThreadContext { sp: 1, tp: 2, ra: 3, retval: 4 };
    thread_ctx_init(&mut ctx, 0xa000, 0xb000, 0xc000);
    assert_eq!(ctx.tp, 0xa000);
    assert_eq!(ctx.sp, 0xb000);
    assert_eq!(ctx.ra, 0xc000);
    assert_eq!(ctx.retval, 0);
}
