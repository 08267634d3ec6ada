use nimbos_scf::uintr_scf::{
    finish_write, fork, get_uintr_scf, naked_scf_response_handler, release_uintr_scf, reset_scf,
    ForkRole, InitAction, InitEvent, RequestStep, ScfLock, ScfSignals, TrapFrame, UintrSCF,
    SCF_REQUEST_VECTOR,
};

fn ready() -> ScfSignals {
    let mut signals = ScfSignals::new();
    naked_scf_response_handler(&mut signals, &frame(0));
    signals
}

fn held_lock() -> ScfLock {
    let mut lock = ScfLock::new();
    assert!(get_uintr_scf(&mut lock));
    lock
}

fn frame(uirrv: u64) -> TrapFrame {
    TrapFrame {
        rdi: 0,
        rsi: 0,
        rdx: 0,
        rcx: 0,
        r8: 0,
        r9: 0,
        r10: 0,
        r11: 0,
        rbx: 0,
        rbp: 0,
        r12: 0,
        r13: 0,
        r14: 0,
        r15: 0,
        rax: 0,
        xsave_area: 0,
        pad: 0,
        uirrv,
    }
}

fn linked(linux_upid: usize, uitte: isize) -> UintrSCF {
    let signals = ready();
    let mut scf = UintrSCF::new();
    assert_eq!(
        scf.init(&signals, InitEvent::Linked { linux_upid }),
        InitAction::RegisterSender { linux_upid, uvec: 1 }
    );
    assert_eq!(
        scf.init(&signals, InitEvent::SenderRegistered { uitte }),
        InitAction::Finished { status: 0 }
    );
    scf
}

#[test]
fn new_scf_is_unlinked_and_zeroed() {
    let scf = UintrSCF::new();
    assert!(!scf.is_init_done());
    assert_eq!(scf.linux_upid(), 0);
    assert_eq!(scf.uitte(), -1);
    let d = scf.descriptor();
    assert_eq!(d.opcode, 0);
    assert_eq!(d.args, [0, 0, 0, 0]);
    assert_eq!(d.ret_val, 0);
}

#[test]
fn init_fails_without_linux_upid() {
    let signals = ready();
    let mut scf = UintrSCF::new();
    assert_eq!(scf.init(&signals, InitEvent::Linked { linux_upid: 0 }), InitAction::Finished { status: -1 });
    assert!(!scf.is_init_done());
    assert_eq!(scf.linux_upid(), 0);
}

#[test]
fn init_fails_when_sender_refused() {
    let signals = ready();
    let mut scf = UintrSCF::new();
    assert_eq!(
        scf.init(&signals, InitEvent::Linked { linux_upid: 0x7000 }),
        InitAction::RegisterSender { linux_upid: 0x7000, uvec: SCF_REQUEST_VECTOR }
    );
    assert_eq!(scf.init(&signals, InitEvent::SenderRegistered { uitte: -1 }), InitAction::Finished { status: -1 });
    assert!(!scf.is_init_done());
    assert_eq!(scf.linux_upid(), 0x7000);
    assert_eq!(scf.uitte(), -1);
}

#[test]
fn init_succeeds_with_upid_and_entry() {
    let scf = linked(0x7000, 3);
    assert!(scf.is_init_done());
    assert_eq!(scf.linux_upid(), 0x7000);
    assert_eq!(scf.uitte(), 3);
}

#[test]
fn init_accepts_entry_zero() {
    let scf = linked(1, 0);
    assert!(scf.is_init_done());
    assert_eq!(scf.uitte(), 0);
}

#[test]
fn send_request_fills_descriptor_and_names_entry() {
    let mut scf = linked(0x7000, 3);
    let mut signals = ScfSignals::new();
    signals.initialized = true;
    signals.syscall_done = true;
    let step = scf.send_request(&mut signals, 9, [1, 2, 3, 4], false);
    assert_eq!(step, RequestStep::Notify { entry: 3 });
    assert!(!signals.syscall_done);
    assert!(signals.initialized);
    let d = scf.descriptor();
    assert_eq!(d.opcode, 9);
    assert_eq!(d.args, [1, 2, 3, 4]);
    assert_eq!(d.ret_val, 0);
    assert!(scf.is_init_done());
}

#[test]
fn send_request_over_down_link_asks_for_init() {
    let mut scf = UintrSCF::new();
    let mut signals = ScfSignals::new();
    signals.syscall_done = true;
    assert_eq!(scf.send_request(&mut signals, 9, [1, 2, 3, 4], false), RequestStep::Initialise);
    assert!(signals.syscall_done);
    assert_eq!(scf.descriptor().opcode, 0);
}

#[test]
fn send_request_after_failed_init_cannot_send() {
    let mut scf = UintrSCF::new();
    let signals0 = ready();
    assert_eq!(
        scf.init(&signals0, InitEvent::Linked { linux_upid: 0 }),
        InitAction::Finished { status: -1 }
    );
    let mut signals = ScfSignals::new();
    assert_eq!(scf.send_request(&mut signals, 9, [1, 2, 3, 4], true), RequestStep::Unlinked);
    assert_eq!(scf.descriptor().args, [0, 0, 0, 0]);
}

#[test]
fn finish_request_returns_the_answer() {
    let mut scf = linked(0x7000, 3);
    let mut signals = ScfSignals::new();
    scf.send_request(&mut signals, 1, [1, 0x2000, 12, 0], false);
    assert_eq!(scf.finish_request(12), 12);
    let d = scf.descriptor();
    assert_eq!(d.ret_val, 12);
    assert_eq!(d.opcode, 1);
    assert_eq!(d.args, [1, 0x2000, 12, 0]);
}

#[test]
fn finish_request_answer_is_cast_to_isize() {
    let mut scf = linked(0x7000, 3);
    assert_eq!(scf.finish_request(u64::MAX), -1);
}

#[test]
fn write_forwards_fd_buffer_and_length() {
    let mut lock = held_lock();
    let mut scf = linked(0x7000, 3);
    let mut signals = ready();
    let step = nimbos_scf::uintr_scf::write(&mut lock, &mut scf, &mut signals, 1, 0x2000, 12, false);
    assert_eq!(step, RequestStep::Notify { entry: 3 });
    assert!(lock.is_locked());
    let d = scf.descriptor();
    assert_eq!(d.opcode, 1);
    assert_eq!(d.args, [1, 0x2000, 12, 0]);
    assert_eq!(d.ret_val, 0);
    assert_eq!(finish_write(&mut lock, &mut scf, 12), 12);
    assert!(!lock.is_locked());
    assert_eq!(scf.descriptor().ret_val, 12);
}

#[test]
fn write_after_reset_initialises_first() {
    let mut scf = linked(0x7000, 3);
    let mut lock = held_lock();
    reset_scf(&mut lock, &mut scf);
    assert!(!lock.is_locked());
    let mut lock = held_lock();
    let mut signals = ready();
    let step = nimbos_scf::uintr_scf::write(&mut lock, &mut scf, &mut signals, 1, 0x2000, 12, false);
    assert_eq!(step, RequestStep::Initialise);
    assert_eq!(
        scf.init(&signals, InitEvent::Linked { linux_upid: 0x8000 }),
        InitAction::RegisterSender { linux_upid: 0x8000, uvec: 1 }
    );
    assert_eq!(
        scf.init(&signals, InitEvent::SenderRegistered { uitte: 6 }),
        InitAction::Finished { status: 0 }
    );
    let step = nimbos_scf::uintr_scf::write(&mut lock, &mut scf, &mut signals, 1, 0x2000, 12, true);
    assert_eq!(step, RequestStep::Notify { entry: 6 });
    assert_eq!(finish_write(&mut lock, &mut scf, u64::MAX), -1);
    assert!(!lock.is_locked());
}

#[test]
fn reset_scf_unlinks_and_releases() {
    let mut scf = linked(0x7000, 3);
    let mut lock = held_lock();
    reset_scf(&mut lock, &mut scf);
    assert!(!scf.is_init_done());
    assert!(!lock.is_locked());
    assert_eq!(scf.linux_upid(), 0x7000);
    assert_eq!(scf.uitte(), 3);
}

#[test]
fn fork_child_resets() {
    assert_eq!(fork(0), ForkRole::Child);
}

#[test]
fn fork_parent_keeps_answer() {
    assert_eq!(fork(42), ForkRole::Parent(42));
    assert_eq!(fork(-1), ForkRole::Parent(-1));
}

#[test]
fn relinking_after_reset() {
    let mut scf = linked(0x7000, 3);
    let mut lock = held_lock();
    reset_scf(&mut lock, &mut scf);
    let signals = ready();
    assert_eq!(
        scf.init(&signals, InitEvent::Linked { linux_upid: 0x8000 }),
        InitAction::RegisterSender { linux_upid: 0x8000, uvec: 1 }
    );
    assert_eq!(
        scf.init(&signals, InitEvent::SenderRegistered { uitte: 5 }),
        InitAction::Finished { status: 0 }
    );
    assert_eq!(scf.uitte(), 5);
    assert!(scf.is_init_done());
}

#[test]
fn response_handler_vector_zero_marks_linked() {
    let mut signals = ScfSignals::new();
    naked_scf_response_handler(&mut signals, &frame(0));
    assert!(signals.initialized);
    assert!(!signals.syscall_done);
}

#[test]
fn response_handler_vector_one_marks_done() {
    let mut signals = ScfSignals::new();
    naked_scf_response_handler(&mut signals, &frame(1));
    assert!(signals.syscall_done);
    assert!(!signals.initialized);
}

#[test]
fn lock_excludes_second_holder() {
    let mut lock = ScfLock::new();
    assert!(!lock.is_locked());
    assert!(get_uintr_scf(&mut lock));
    assert!(lock.is_locked());
    assert!(!get_uintr_scf(&mut lock));
    assert!(lock.is_locked());
    release_uintr_scf(&mut lock);
    assert!(!lock.is_locked());
    assert!(get_uintr_scf(&mut lock));
}

#[test]
fn init_status_matches_link() {
    let signals = ready();
    let mut scf = UintrSCF::new();
    let a = scf.init(&signals, InitEvent::Linked { linux_upid: 0 });
    assert_eq!(a, InitAction::Finished { status: -1 });
    assert!(!scf.is_init_done());
    let mut scf = UintrSCF::new();
    scf.init(&signals, InitEvent::Linked { linux_upid: 9 });
    let b = scf.init(&signals, InitEvent::SenderRegistered { uitte: 0 });
    assert_eq!(b, InitAction::Finished { status: 0 });
    assert!(scf.is_init_done());
    assert!(scf.linux_upid() != 0 && scf.uitte() >= 0);
}
