use vstd::prelude::*;

verus! {

/// Opcode of a `write` request forwarded to the Linux side.
pub const SCF_WRITE: u8 = 1;

/// User-interrupt vector under which the Linux side receives requests.
pub const SCF_REQUEST_VECTOR: u8 = 1;

/// `uirrv` the Linux side sends once it has linked with this process.
pub const UIRRV_INIT_DONE: u64 = 0;

/// `uirrv` the Linux side sends when a forwarded syscall has completed.
pub const UIRRV_SYSCALL_DONE: u64 = 1;

/// The shared descriptor through which one syscall is forwarded: the
/// request (opcode and four arguments) and the slot the answer comes back in.
#[derive(Clone, Copy, Debug)]
pub struct UintrScfDescriptor {
    pub opcode: u8,
    pub args: [u64; 4],
    pub ret_val: u64,
}

/// What a `UintrSCF` holds, as plain values.
pub struct ScfState {
    pub desc: UintrScfDescriptor,
    pub linux_upid: usize,
    pub uitte: isize,
    pub init_done: bool,
}

/// The user side of syscall forwarding over user interrupts: the descriptor
/// shared with the Linux side, the Linux side's UPID, the sender-table entry
/// used to notify it, and whether the link is established.
pub struct UintrSCF {
    desc: UintrScfDescriptor,
    linux_upid: usize,
    uitte: isize,
    init_done: bool,
}

impl View for UintrSCF {
    type V = ScfState;

    closed spec fn view(&self) -> ScfState {
        ScfState {
            desc: self.desc,
            linux_upid: self.linux_upid,
            uitte: self.uitte,
            init_done: self.init_done,
        }
    }
}

/// An event of the initialisation protocol: what the kernel answered.
#[derive(Clone, Copy, Debug)]
pub enum InitEvent {
    /// The cross-link answered with the Linux side's UPID (zero: none),
    /// and the Linux side has signalled that it is ready.
    Linked { linux_upid: usize },
    /// The sender registration answered with a sender-table entry
    /// (negative: refused).
    SenderRegistered { uitte: isize },
}

/// What the initialisation protocol asks for next.
#[derive(Clone, Copy, Debug, PartialEq, Eq, Structural)]
pub enum InitAction {
    /// Register as a sender towards `linux_upid` with vector `uvec`.
    RegisterSender { linux_upid: usize, uvec: u8 },
    /// Initialisation is over: 0 on success, -1 on failure.
    Finished { status: isize },
}

/// The state and action that one initialisation event leads to.
pub open spec fn init_step(s: ScfState, event: InitEvent) -> (ScfState, InitAction) {
    match event {
        InitEvent::Linked { linux_upid } => (
            ScfState {
                desc: s.desc,
                linux_upid: linux_upid,
                uitte: s.uitte,
                init_done: s.init_done,
            },
            if linux_upid == 0 {
                InitAction::Finished { status: -1isize }
            } else {
                InitAction::RegisterSender { linux_upid: linux_upid, uvec: 1 }
            },
        ),
        InitEvent::SenderRegistered { uitte } => (
            ScfState {
                desc: s.desc,
                linux_upid: s.linux_upid,
                uitte: uitte,
                init_done: s.init_done || uitte >= 0,
            },
            InitAction::Finished { status: if uitte < 0 { -1isize } else { 0isize } },
        ),
    }
}

/// What every forwarding state keeps: a link is only marked established
/// once the Linux side's UPID is known (non-zero) and a sender entry towards
/// it has been granted (non-negative).
pub open spec fn linked_ok(s: ScfState) -> bool {
    s.init_done ==> s.linux_upid != 0 && s.uitte >= 0
}

/// The state after the Linux side has written `ret_val` into the descriptor.
pub open spec fn with_response(s: ScfState, ret_val: u64) -> ScfState {
    ScfState {
        desc: UintrScfDescriptor { opcode: s.desc.opcode, args: s.desc.args, ret_val: ret_val },
        linux_upid: s.linux_upid,
        uitte: s.uitte,
        init_done: s.init_done,
    }
}

/// The state with the link marked as not established.
pub open spec fn unlinked(s: ScfState) -> ScfState {
    ScfState { desc: s.desc, linux_upid: s.linux_upid, uitte: s.uitte, init_done: false }
}

/// What a forwarded request asks for next.
#[derive(Clone, Copy, Debug, PartialEq, Eq, Structural)]
pub enum RequestStep {
    /// The link is down: run the initialisation protocol, then send again.
    Initialise,
    /// The request is in the descriptor: notify the Linux side through this
    /// sender entry, then wait until the syscall is done.
    Notify { entry: u64 },
    /// The link is still down after initialisation was tried: the request
    /// cannot be forwarded.
    Unlinked,
}

/// `after` holds the request `opcode`/`args` with its answer slot cleared,
/// and the link is as in `before`.
pub open spec fn holds_request(before: ScfState, after: ScfState, opcode: u8, args: Seq<u64>) -> bool {
    &&& after.desc.opcode == opcode
    &&& after.desc.args@ == args
    &&& after.desc.ret_val == 0
    &&& after.linux_upid == before.linux_upid
    &&& after.uitte == before.uitte
    &&& after.init_done == before.init_done
}

/// Sending a request from state `before`: over an established link the
/// request is written and the Linux side is notified through the sender
/// entry; otherwise nothing changes, and the link is to be initialised
/// first, or, when that was tried already, the request cannot be sent.
pub open spec fn request_step(
    before: ScfState,
    after: ScfState,
    step: RequestStep,
    opcode: u8,
    args: Seq<u64>,
    init_attempted: bool,
) -> bool {
    if before.init_done {
        &&& holds_request(before, after, opcode, args)
        &&& step == RequestStep::Notify { entry: before.uitte as u64 }
    } else {
        &&& after == before
        &&& step == if init_attempted { RequestStep::Unlinked } else { RequestStep::Initialise }
    }
}

impl UintrSCF {
    /// A link is only marked established once the Linux side's UPID is known
    /// and a sender entry towards it has been granted.
    #[verifier::type_invariant]
    spec fn linked_inv(&self) -> bool {
        self.init_done ==> self.linux_upid != 0 && self.uitte >= 0
    }

    /// A fresh, unlinked forwarding state with a zeroed descriptor.
    pub fn new() -> (s: Self)
        ensures
            s@.desc.opcode == 0,
            s@.desc.args@ == seq![0u64, 0u64, 0u64, 0u64],
            s@.desc.ret_val == 0,
            s@.linux_upid == 0,
            s@.uitte == -1,
            !s@.init_done,
            linked_ok(s@),
    {
        let s = Self {
            desc: UintrScfDescriptor { opcode: 0, args: [0; 4], ret_val: 0 },
            linux_upid: 0,
            uitte: -1,
            init_done: false,
        };
        assert(s.desc.args@ =~= seq![0u64, 0u64, 0u64, 0u64]);
        s
    }

    /// Whether the link to the Linux side is established.
    pub fn is_init_done(&self) -> (b: bool)
        ensures
            b == self@.init_done,
            linked_ok(self@),
    {
        proof {
            use_type_invariant(self);
        }
        self.init_done
    }

    /// The Linux side's UPID, as the cross-link reported it.
    pub fn linux_upid(&self) -> (u: usize)
        ensures
            u == self@.linux_upid,
            linked_ok(self@),
    {
        proof {
            use_type_invariant(self);
        }
        self.linux_upid
    }

    /// The sender-table entry used to notify the Linux side.
    pub fn uitte(&self) -> (e: isize)
        ensures
            e == self@.uitte,
            linked_ok(self@),
    {
        proof {
            use_type_invariant(self);
        }
        self.uitte
    }

    /// A copy of the shared descriptor.
    pub fn descriptor(&self) -> (d: UintrScfDescriptor)
        ensures
            d == self@.desc,
    {
        self.desc
    }

    /// One step of the initialisation protocol. After the handler has been
    /// registered, interrupts enabled and the cross-link made, and only once
    /// the Linux side has signalled readiness (the flag raised by vector 0),
    /// `Linked` records its UPID: zero
    /// ends initialisation with -1, otherwise the next step is to register
    /// as a sender with vector 1. `SenderRegistered` records the entry: a
    /// negative one ends with -1, otherwise the link is established and
    /// initialisation ends with 0.
    pub fn init(&mut self, signals: &ScfSignals, event: InitEvent) -> (action: InitAction)
        requires
            !old(self)@.init_done,
            event is Linked ==> signals.initialized,
            event is SenderRegistered ==> old(self)@.linux_upid != 0,
        ensures
            (final(self)@, action) == init_step(old(self)@, event),
            linked_ok(final(self)@),
            (action is Finished ==> (action->status == 0 || action->status == -1)),
            (action is Finished ==> (action->status == 0 <==> final(self)@.init_done)),
    {
        match event {
            InitEvent::Linked { linux_upid } => {
                self.linux_upid = linux_upid;
                if linux_upid == 0 {
                    InitAction::Finished { status: -1isize }
                } else {
                    InitAction::RegisterSender { linux_upid, uvec: SCF_REQUEST_VECTOR }
                }
            },
            InitEvent::SenderRegistered { uitte } => {
                self.uitte = uitte;
                if uitte < 0 {
                    InitAction::Finished { status: -1isize }
                } else {
                    self.init_done = true;
                    InitAction::Finished { status: 0 }
                }
            },
        }
    }

    /// Sends a request: over an established link, writes it into the
    /// descriptor with its answer slot cleared, lowers the completion flag
    /// and returns the sender entry to notify the Linux side through. Over a
    /// link that is down nothing changes: the answer is to initialise the
    /// link first, or, if `init_attempted`, that the request cannot be sent.
    pub fn send_request(
        &mut self,
        signals: &mut ScfSignals,
        opcode: u8,
        args: [u64; 4],
        init_attempted: bool,
    ) -> (step: RequestStep)
        ensures
            request_step(old(self)@, final(self)@, step, opcode, args@, init_attempted),
            linked_ok(final(self)@),
            final(signals).initialized == old(signals).initialized,
            step is Notify ==> !final(signals).syscall_done,
            !(step is Notify) ==> final(signals).syscall_done == old(signals).syscall_done,
    {
        proof {
            use_type_invariant(&*self);
        }
        if self.init_done {
            self.desc = UintrScfDescriptor { opcode, args, ret_val: 0 };
            signals.syscall_done = false;
            RequestStep::Notify { entry: self.uitte as u64 }
        } else if init_attempted {
            RequestStep::Unlinked
        } else {
            RequestStep::Initialise
        }
    }

    /// Records the answer the Linux side wrote into the descriptor and
    /// returns it as the syscall's result.
    pub fn finish_request(&mut self, ret_val: u64) -> (r: isize)
        ensures
            final(self)@ == with_response(old(self)@, ret_val),
            linked_ok(final(self)@),
            r == (#[verifier::truncate] (ret_val as isize)),
    {
        proof {
            use_type_invariant(&*self);
        }
        self.desc = UintrScfDescriptor { opcode: self.desc.opcode, args: self.desc.args, ret_val };
        #[verifier::truncate] (ret_val as isize)
    }

    /// Marks the link as not established, so that the next request
    /// initialises it again.
    fn unlink(&mut self)
        ensures
            final(self)@ == unlinked(old(self)@),
    {
        self.init_done = false;
    }
}

/// The flags that the response handler raises.
pub struct ScfSignals {
    /// The Linux side has linked with this process.
    pub initialized: bool,
    /// The forwarded syscall has completed.
    pub syscall_done: bool,
}

impl ScfSignals {
    /// Both flags lowered.
    pub fn new() -> (s: Self)
        ensures
            !s.initialized,
            !s.syscall_done,
    {
        ScfSignals { initialized: false, syscall_done: false }
    }
}

/// The registers saved on the stack when a user interrupt is delivered.
#[derive(Clone, Copy, Debug)]
pub struct TrapFrame {
    pub rdi: u64,
    pub rsi: u64,
    pub rdx: u64,
    pub rcx: u64,
    pub r8: u64,
    pub r9: u64,
    pub r10: u64,
    pub r11: u64,
    pub rbx: u64,
    pub rbp: u64,
    pub r12: u64,
    pub r13: u64,
    pub r14: u64,
    pub r15: u64,
    pub rax: u64,
    pub xsave_area: u64,
    pub pad: u64,
    /// The user-interrupt request vector that was delivered.
    pub uirrv: u64,
}

/// Handles a user interrupt from the Linux side: vector 0 means it has
/// linked with this process, vector 1 that the forwarded syscall is done.
pub fn naked_scf_response_handler(signals: &mut ScfSignals, trap_frame: &TrapFrame)
    requires
        trap_frame.uirrv <= 1,
    ensures
        trap_frame.uirrv == 0 ==> final(signals).initialized
            && final(signals).syscall_done == old(signals).syscall_done,
        trap_frame.uirrv == 1 ==> final(signals).syscall_done
            && final(signals).initialized == old(signals).initialized,
{
    if trap_frame.uirrv == UIRRV_INIT_DONE {
        signals.initialized = true;
    } else {
        signals.syscall_done = true;
    }
}

/// The arguments of a forwarded `write`: the file descriptor, the buffer's
/// address, its length, and zero.
pub open spec fn write_args(fd: usize, buf_addr: usize, buf_len: usize) -> Seq<u64> {
    seq![fd as u64, buf_addr as u64, buf_len as u64, 0u64]
}

/// Forwards a `write` while holding the forwarding lock: sends the request
/// with opcode 1 and the file descriptor, the buffer's address and its
/// length (see `UintrSCF::send_request`). The lock stays held until
/// `finish_write`.
pub fn write(
    lock: &mut ScfLock,
    scf: &mut UintrSCF,
    signals: &mut ScfSignals,
    fd: usize,
    buf_addr: usize,
    buf_len: usize,
    init_attempted: bool,
) -> (step: RequestStep)
    requires
        old(lock)@,
    ensures
        final(lock)@,
        request_step(old(scf)@, final(scf)@, step, 1, write_args(fd, buf_addr, buf_len), init_attempted),
        linked_ok(final(scf)@),
        final(signals).initialized == old(signals).initialized,
        step is Notify ==> !final(signals).syscall_done,
        !(step is Notify) ==> final(signals).syscall_done == old(signals).syscall_done,
{
    let args: [u64; 4] = [fd as u64, buf_addr as u64, buf_len as u64, 0];
    assert(args@ =~= write_args(fd, buf_addr, buf_len));
    scf.send_request(signals, SCF_WRITE, args, init_attempted)
}

/// Ends a forwarded `write` once the Linux side has answered `ret_val`:
/// records the answer, gives the forwarding lock back and returns the answer
/// as the result.
pub fn finish_write(lock: &mut ScfLock, scf: &mut UintrSCF, ret_val: u64) -> (r: isize)
    requires
        old(lock)@,
    ensures
        !final(lock)@,
        final(scf)@ == with_response(old(scf)@, ret_val),
        linked_ok(final(scf)@),
        r == (#[verifier::truncate] (ret_val as isize)),
{
    let r = scf.finish_request(ret_val);
    release_uintr_scf(lock);
    r
}

/// Marks the forwarding link as not established, under the forwarding lock,
/// and gives the lock back.
pub fn reset_scf(lock: &mut ScfLock, scf: &mut UintrSCF)
    requires
        old(lock)@,
    ensures
        !final(lock)@,
        final(scf)@ == unlinked(old(scf)@),
        linked_ok(final(scf)@),
{
    scf.unlink();
    release_uintr_scf(lock);
}

/// Which side of a `fork` this process is on.
#[derive(Clone, Copy, Debug, PartialEq, Eq, Structural)]
pub enum ForkRole {
    /// The child (answer 0): take the forwarding lock and reset the link
    /// (`reset_scf`), then return 0.
    Child,
    /// The parent, or a failed fork: return this answer, touching nothing.
    Parent(isize),
}

/// What `fork` does with the kernel's answer.
pub fn fork(forked: isize) -> (role: ForkRole)
    ensures
        forked == 0 ==> role == ForkRole::Child,
        forked != 0 ==> role == ForkRole::Parent(forked),
{
    if forked == 0 {
        ForkRole::Child
    } else {
        ForkRole::Parent(forked)
    }
}

/// Whether one attempt to take the forwarding lock succeeds, and whether the
/// lock is held after it.
pub open spec fn acquire_outcome(locked: bool) -> (bool, bool) {
    (!locked, true)
}

/// The lock that serialises use of the one forwarding state of a process.
pub struct ScfLock {
    locked: bool,
}

impl View for ScfLock {
    type V = bool;

    closed spec fn view(&self) -> bool {
        self.locked
    }
}

impl ScfLock {
    /// A lock that nobody holds.
    pub fn new() -> (l: Self)
        ensures
            !l@,
    {
        ScfLock { locked: false }
    }

    /// Whether the lock is held.
    pub fn is_locked(&self) -> (b: bool)
        ensures
            b == self@,
    {
        self.locked
    }
}

/// One attempt to take the forwarding lock: it succeeds exactly when
/// nobody holds it, and the lock is held afterwards either way.
pub fn get_uintr_scf(lock: &mut ScfLock) -> (acquired: bool)
    ensures
        (acquired, final(lock)@) == acquire_outcome(old(lock)@),
{
    if lock.locked {
        false
    } else {
        lock.locked = true;
        true
    }
}

/// Gives the forwarding lock back.
pub fn release_uintr_scf(lock: &mut ScfLock)
    ensures
        !final(lock)@,
{
    lock.locked = false;
}

/// The forwarding lock excludes: once taken, a second attempt fails; once
/// given back, the next attempt succeeds.
pub proof fn lemma_lock_exclusive(locked: bool)
    ensures
        !acquire_outcome(acquire_outcome(locked).1).0,
        acquire_outcome(false).0,
{
}

/// Initialising against a kernel that answers the cross-link with
/// `linux_upid` and the sender registration with `uitte` establishes the link
/// exactly when the UPID is non-zero and the entry non-negative; it finishes
/// with status 0 then and -1 otherwise, and both answers are recorded.
pub proof fn lemma_init_outcome(s: ScfState, linux_upid: usize, uitte: isize)
    requires
        !s.init_done,
    ensures
        ({
            let (s1, a1) = init_step(s, InitEvent::Linked { linux_upid });
            let (s2, a2) = init_step(s1, InitEvent::SenderRegistered { uitte });
            &&& linux_upid == 0 ==> a1 == InitAction::Finished { status: -1isize } && !s1.init_done
            &&& linux_upid != 0 ==> a1 == InitAction::RegisterSender { linux_upid, uvec: 1 }
            &&& linux_upid != 0 ==> (s2.init_done <==> uitte >= 0)
            &&& linux_upid != 0 ==> a2 == InitAction::Finished {
                status: if uitte >= 0 { 0isize } else { -1isize },
            }
            &&& linux_upid != 0 ==> s2.linux_upid == linux_upid && s2.uitte == uitte
        }),
{
}

/// A forwarded request and its answer: over an established link, sending
/// notifies the Linux side through the sender entry, and once it answers
/// `ret_val` the descriptor holds the request together with that answer,
/// with the link as it was.
pub proof fn lemma_request_round_trip(
    s: ScfState,
    after: ScfState,
    step: RequestStep,
    opcode: u8,
    args: Seq<u64>,
    init_attempted: bool,
    ret_val: u64,
)
    requires
        s.init_done,
        request_step(s, after, step, opcode, args, init_attempted),
    ensures
        step == (RequestStep::Notify { entry: s.uitte as u64 }),
        with_response(after, ret_val).desc.opcode == opcode,
        with_response(after, ret_val).desc.args@ == args,
        with_response(after, ret_val).desc.ret_val == ret_val,
        with_response(after, ret_val).linux_upid == s.linux_upid,
        with_response(after, ret_val).uitte == s.uitte,
        with_response(after, ret_val).init_done,
{
}

/// A request over a link that was reset is not sent before the link is
/// initialised again: the first answer is to initialise, nothing changing;
/// once initialisation succeeds, the request is written and the Linux side
/// is notified through the new sender entry.
pub proof fn lemma_request_after_reset(
    s: ScfState,
    linux_upid: usize,
    uitte: isize,
    opcode: u8,
    args: Seq<u64>,
    after0: ScfState,
    step0: RequestStep,
    after: ScfState,
    step: RequestStep,
)
    requires
        linux_upid != 0,
        uitte >= 0,
        request_step(unlinked(s), after0, step0, opcode, args, false),
        request_step(
            init_step(init_step(after0, InitEvent::Linked { linux_upid }).0, InitEvent::SenderRegistered { uitte }).0,
            after,
            step,
            opcode,
            args,
            true,
        ),
    ensures
        step0 == RequestStep::Initialise,
        after0 == unlinked(s),
        step == (RequestStep::Notify { entry: uitte as u64 }),
        holds_request(
            init_step(init_step(after0, InitEvent::Linked { linux_upid }).0, InitEvent::SenderRegistered { uitte }).0,
            after,
            opcode,
            args,
        ),
        after.init_done,
        after.linux_upid == linux_upid,
{
}

/// A request over a link that stays down after initialisation was tried is
/// not sent, and changes nothing.
pub proof fn lemma_request_unlinked(
    s: ScfState,
    after: ScfState,
    step: RequestStep,
    opcode: u8,
    args: Seq<u64>,
)
    requires
        !s.init_done,
        request_step(s, after, step, opcode, args, true),
    ensures
        step == RequestStep::Unlinked,
        after == s,
{
}

/// Every step of the forwarding state keeps the link invariant: from a
/// state that keeps it, an initialisation step (in protocol order), sending a
/// request, recording an answer or a reset lead to a state that keeps it.
/// An initialisation step that finishes does so with status 0 or -1, and
/// with 0 exactly when the link is then established.
pub proof fn lemma_link_invariant_kept(
    s: ScfState,
    event: InitEvent,
    after: ScfState,
    step: RequestStep,
    opcode: u8,
    args: Seq<u64>,
    init_attempted: bool,
    ret_val: u64,
)
    requires
        linked_ok(s),
    ensures
        !s.init_done && (event is SenderRegistered ==> s.linux_upid != 0) ==> linked_ok(
            init_step(s, event).0,
        ),
        !s.init_done ==> (init_step(s, event).1 is Finished ==> (init_step(s, event).1->status == 0
            || init_step(s, event).1->status == -1)),
        !s.init_done ==> (init_step(s, event).1 is Finished ==> (init_step(s, event).1->status == 0
            <==> init_step(s, event).0.init_done)),
        request_step(s, after, step, opcode, args, init_attempted) ==> linked_ok(after),
        linked_ok(with_response(s, ret_val)),
        linked_ok(unlinked(s)),
{
}

/// A forwarded `write` hands the Linux side the caller's file descriptor,
/// buffer address and length, in that order, and a zero fourth argument:
/// once sent over an established link, the descriptor holds exactly these.
pub proof fn lemma_write_forwards_caller_arguments(
    fd: usize,
    buf_addr: usize,
    buf_len: usize,
    s: ScfState,
    after: ScfState,
    step: RequestStep,
    init_attempted: bool,
)
    requires
        s.init_done,
        request_step(s, after, step, 1, write_args(fd, buf_addr, buf_len), init_attempted),
    ensures
        write_args(fd, buf_addr, buf_len).len() == 4,
        write_args(fd, buf_addr, buf_len)[0] == fd,
        write_args(fd, buf_addr, buf_len)[1] == buf_addr,
        write_args(fd, buf_addr, buf_len)[2] == buf_len,
        write_args(fd, buf_addr, buf_len)[3] == 0,
        after.desc.opcode == 1,
        after.desc.args@[0] == fd,
        after.desc.args@[1] == buf_addr,
        after.desc.args@[2] == buf_len,
        after.desc.args@[3] == 0,
        after.desc.ret_val == 0,
{
}

} // verus!
