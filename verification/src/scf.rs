use vstd::prelude::*;

verus! {

/// The waiting side of a forwarded syscall: the address of the condition
/// variable its task sleeps on, zero when nobody waits for the answer.
#[derive(Clone, Copy, Debug, PartialEq, Eq, Structural)]
pub struct SyscallToken {
    pub cond_var: u64,
}

impl SyscallToken {
    /// Whether some task waits for the answer.
    pub fn is_valid(&self) -> (b: bool)
        ensures
            b == (self.cond_var != 0),
    {
        self.cond_var != 0
    }
}

/// An answer the other side put into a syscall queue: who waits for it, and
/// the syscall's return value.
#[derive(Clone, Copy, Debug, PartialEq, Eq, Structural)]
pub struct SyscallResponse {
    pub token: SyscallToken,
    pub ret_val: u64,
}

/// A waiting task to wake: signal the condition variable with the value.
#[derive(Clone, Copy, Debug, PartialEq, Eq, Structural)]
pub struct Wakeup {
    pub cond_var: u64,
    pub ret_val: u64,
}

/// The tasks to wake for a run of answers, in order: one per answer whose
/// token is valid; answers nobody waits for are dropped.
pub open spec fn wakeups_of(rs: Seq<SyscallResponse>) -> Seq<Wakeup>
    decreases rs.len(),
{
    if rs.len() == 0 {
        Seq::empty()
    } else {
        let last = rs.last();
        if last.token.cond_var != 0 {
            wakeups_of(rs.drop_last()).push(Wakeup { cond_var: last.token.cond_var, ret_val: last.ret_val })
        } else {
            wakeups_of(rs.drop_last())
        }
    }
}

/// The tasks to wake for a whole table of queues: slot by slot, in order.
pub open spec fn table_wakeups(qs: Seq<Seq<SyscallResponse>>) -> Seq<Wakeup>
    decreases qs.len(),
{
    if qs.len() == 0 {
        Seq::empty()
    } else {
        table_wakeups(qs.drop_last()) + wakeups_of(qs.last())
    }
}

/// The answer taken from the front of a queue, and what is left.
pub open spec fn pop_outcome(q: Seq<SyscallResponse>) -> (Option<SyscallResponse>, Seq<SyscallResponse>) {
    if q.len() == 0 {
        (None, q)
    } else {
        (Some(q[0]), q.subrange(1, q.len() as int))
    }
}

/// The answers of one forwarding slot, oldest first.
pub struct SyscallQueueBuffer {
    responses: std::collections::VecDeque<SyscallResponse>,
}

impl View for SyscallQueueBuffer {
    type V = Seq<SyscallResponse>;

    closed spec fn view(&self) -> Seq<SyscallResponse> {
        self.responses@
    }
}

impl SyscallQueueBuffer {
    /// An empty queue.
    pub fn new() -> (q: Self)
        ensures
            q@ == Seq::<SyscallResponse>::empty(),
    {
        SyscallQueueBuffer { responses: std::collections::VecDeque::new() }
    }

    /// The number of answers waiting.
    pub fn len(&self) -> (n: usize)
        ensures
            n == self@.len(),
    {
        self.responses.len()
    }

    /// Puts an answer at the back of the queue.
    pub fn push_response(&mut self, rsp: SyscallResponse)
        ensures
            final(self)@ == old(self)@.push(rsp),
    {
        self.responses.push_back(rsp);
    }

    /// Takes the oldest answer, if any.
    pub fn pop_response(&mut self) -> (rsp: Option<SyscallResponse>)
        ensures
            (rsp, final(self)@) == pop_outcome(old(self)@),
    {
        self.responses.pop_front()
    }

    /// Takes every answer, appending the wakeups they call for to `out`.
    fn drain_wakeups(&mut self, out: &mut Vec<Wakeup>)
        ensures
            final(self)@.len() == 0,
            final(out)@ == old(out)@ + wakeups_of(old(self)@),
    {
        let ghost orig = self@;
        let ghost mut consumed: Seq<SyscallResponse> = Seq::empty();
        assert(orig =~= consumed + self@);
        assert(old(out)@ =~= old(out)@ + wakeups_of(consumed));
        loop
            invariant
                orig == consumed + self@,
                out@ == old(out)@ + wakeups_of(consumed),
            ensures
                self@.len() == 0,
                out@ == old(out)@ + wakeups_of(orig),
            decreases self@.len(),
        {
            match self.pop_response() {
                Some(rsp) => {
                    let ghost before = consumed;
                    proof {
                        consumed = consumed.push(rsp);
                        assert(consumed.drop_last() =~= before);
                        assert(orig =~= consumed + self@);
                    }
                    if rsp.token.is_valid() {
                        out.push(Wakeup { cond_var: rsp.token.cond_var, ret_val: rsp.ret_val });
                    }
                    assert(out@ =~= old(out)@ + wakeups_of(consumed));
                },
                None => {
                    assert(consumed =~= orig);
                    break ;
                },
            }
        }
    }
}

/// The syscall queues of all forwarding slots.
pub struct QueueTable {
    queues: Vec<SyscallQueueBuffer>,
}

impl View for QueueTable {
    type V = Seq<Seq<SyscallResponse>>;

    closed spec fn view(&self) -> Seq<Seq<SyscallResponse>> {
        Seq::new(self.queues@.len(), |i: int| self.queues@[i]@)
    }
}

impl QueueTable {
    /// A table of `slot_count` empty queues.
    pub fn new(slot_count: usize) -> (t: Self)
        ensures
            t@.len() == slot_count,
            forall|i: int| 0 <= i < slot_count ==> (#[trigger] t@[i]).len() == 0,
    {
        let mut queues: Vec<SyscallQueueBuffer> = Vec::new();
        let mut i: usize = 0;
        while i < slot_count
            invariant
                i <= slot_count,
                queues@.len() == i,
                forall|j: int| 0 <= j < i ==> (#[trigger] queues@[j])@.len() == 0,
            decreases slot_count - i,
        {
            queues.push(SyscallQueueBuffer::new());
            i = i + 1;
        }
        QueueTable { queues }
    }

    /// The number of slots.
    pub fn slot_count(&self) -> (n: usize)
        ensures
            n == self@.len(),
    {
        self.queues.len()
    }

    /// The queue of one slot.
    pub fn get_queue(&mut self, slot_num: usize) -> (q: &mut SyscallQueueBuffer)
        requires
            slot_num < old(self)@.len(),
        ensures
            q@ == old(self)@[slot_num as int],
            final(self)@ == old(self)@.update(slot_num as int, final(q)@),
    {
        &mut self.queues[slot_num]
    }
}

/// Where a notification inter-processor interrupt goes: its vector and the
/// destination processor.
#[derive(Clone, Copy, Debug, PartialEq, Eq, Structural)]
pub struct IpiTarget {
    pub vector: u8,
    pub dest: usize,
}

/// A forwarding slot in use, with the count of its users.
pub struct SCF {
    pub slot_num: usize,
    pub ref_cnt: usize,
}

impl SCF {
    /// The slot `slot_num`, with one user.
    pub fn new(slot_num: usize) -> (s: Self)
        ensures
            s.slot_num == slot_num,
            s.ref_cnt == 1,
    {
        Self { slot_num, ref_cnt: 1 }
    }

    /// The interrupt that notifies the other side of this slot, from the
    /// vector and destination the current task's context names: the vector
    /// is cut to its low byte.
    pub fn ipi_notify(&self, ipi_vector: usize, ipi_dest: usize) -> (t: IpiTarget)
        ensures
            t.vector == (#[verifier::truncate] (ipi_vector as u8)),
            t.dest == ipi_dest,
    {
        IpiTarget { vector: #[verifier::truncate] (ipi_vector as u8), dest: ipi_dest }
    }

    /// The syscall queue of this slot.
    pub fn queue<'a>(&self, table: &'a mut QueueTable) -> (q: &'a mut SyscallQueueBuffer)
        requires
            self.slot_num < old(table)@.len(),
        ensures
            q@ == old(table)@[self.slot_num as int],
            final(table)@ == old(table)@.update(self.slot_num as int, final(q)@),
    {
        table.get_queue(self.slot_num)
    }
}

/// Answers every pending forwarded syscall: empties the queues of all slots
/// in slot order and returns the tasks to wake, in the order their answers
/// arrived; answers nobody waits for are dropped.
pub fn handle_irq(table: &mut QueueTable) -> (wakeups: Vec<Wakeup>)
    ensures
        wakeups@ == table_wakeups(old(table)@),
        final(table)@.len() == old(table)@.len(),
        forall|i: int| 0 <= i < final(table)@.len() ==> (#[trigger] final(table)@[i]).len() == 0,
{
    let mut out: Vec<Wakeup> = Vec::new();
    let n: usize = table.queues.len();
    let mut slot: usize = 0;
    assert(old(table)@.take(0) =~= Seq::<Seq<SyscallResponse>>::empty());
    while slot < n
        invariant
            n == table.queues@.len(),
            n == old(table)@.len(),
            slot <= n,
            out@ == table_wakeups(old(table)@.take(slot as int)),
            forall|j: int| 0 <= j < slot ==> (#[trigger] table.queues@[j])@.len() == 0,
            forall|j: int| slot <= j < n ==> (#[trigger] table.queues@[j])@ == old(table)@[j],
        decreases n - slot,
    {
        let ghost pre = table.queues@;
        table.queues[slot].drain_wakeups(&mut out);
        proof {
            let qs = old(table)@;
            assert(qs.take(slot + 1).drop_last() =~= qs.take(slot as int));
            assert(qs.take(slot + 1).last() == qs[slot as int]);
            assert(pre[slot as int]@ == qs[slot as int]);
        }
        slot = slot + 1;
    }
    assert(old(table)@.take(n as int) =~= old(table)@);
    assert(table@.len() == old(table)@.len());
    out
}

/// Interrupt vector on which the Linux side announces answered syscalls.
pub const APIC_LINUX_IPI_VECTOR: usize = 40;

/// Interrupt vector on which the Linux side announces answered syscalls
/// through a user-interrupt notification.
pub const APIC_LINUX_IPI_VECTOR2: usize = 41;

/// What a forwarding interrupt handler did: the tasks to wake, and whether
/// the scheduler should run afterwards.
pub struct IrqOutcome {
    pub wakeups: Vec<Wakeup>,
    pub reschedule: bool,
}

/// The handler of `APIC_LINUX_IPI_VECTOR`: answers every pending forwarded
/// syscall (see `handle_irq`) and asks for a reschedule.
pub fn linux_ipi_handler(table: &mut QueueTable) -> (o: IrqOutcome)
    ensures
        o.wakeups@ == table_wakeups(old(table)@),
        final(table)@.len() == old(table)@.len(),
        forall|i: int| 0 <= i < final(table)@.len() ==> (#[trigger] final(table)@[i]).len() == 0,
        o.reschedule,
{
    let wakeups = handle_irq(table);
    IrqOutcome { wakeups, reschedule: true }
}

/// The handler of `APIC_LINUX_IPI_VECTOR2`: answers every pending forwarded
/// syscall (see `handle_irq`), then clears the status of the notifying
/// UPID's notification control (its outstanding-notification bit among
/// them) so that the next notification is delivered, and asks for a
/// reschedule.
pub fn uintr_ipi_handler(table: &mut QueueTable, upid_status: &mut u8) -> (o: IrqOutcome)
    ensures
        o.wakeups@ == table_wakeups(old(table)@),
        final(table)@.len() == old(table)@.len(),
        forall|i: int| 0 <= i < final(table)@.len() ==> (#[trigger] final(table)@[i]).len() == 0,
        *final(upid_status) == 0,
        o.reschedule,
{
    let wakeups = handle_irq(table);
    *upid_status = 0;
    IrqOutcome { wakeups, reschedule: true }
}

/// Every wakeup names a waiting task, and there are no more wakeups than
/// answers.
pub proof fn lemma_wakeups_valid(rs: Seq<SyscallResponse>)
    ensures
        wakeups_of(rs).len() <= rs.len(),
        forall|i: int| 0 <= i < wakeups_of(rs).len() ==> (#[trigger] wakeups_of(rs)[i]).cond_var != 0,
    decreases rs.len(),
{
    if rs.len() > 0 {
        lemma_wakeups_valid(rs.drop_last());
    }
}

/// A table whose queues are all empty calls for no wakeups: answering
/// twice in a row wakes nobody the second time.
pub proof fn lemma_drained_table_quiet(qs: Seq<Seq<SyscallResponse>>)
    requires
        forall|i: int| 0 <= i < qs.len() ==> (#[trigger] qs[i]).len() == 0,
    ensures
        table_wakeups(qs) == Seq::<Wakeup>::empty(),
    decreases qs.len(),
{
    if qs.len() > 0 {
        lemma_drained_table_quiet(qs.drop_last());
        assert(qs.last().len() == 0);
        assert(table_wakeups(qs) =~= Seq::<Wakeup>::empty());
    }
}

/// Answers leave a queue in the order they entered it.
pub proof fn lemma_queue_fifo(q: Seq<SyscallResponse>, rsp: SyscallResponse)
    ensures
        q.len() == 0 ==> pop_outcome(q.push(rsp)) == (Some(rsp), Seq::<SyscallResponse>::empty()),
        q.len() > 0 ==> pop_outcome(q.push(rsp)).0 == Some(q[0]),
        q.len() > 0 ==> pop_outcome(q.push(rsp)).1 == pop_outcome(q).1.push(rsp),
{
    if q.len() == 0 {
        assert(q.push(rsp).subrange(1, 1) =~= Seq::<SyscallResponse>::empty());
    } else {
        assert(q.push(rsp).subrange(1, q.len() + 1int) =~= q.subrange(1, q.len() as int).push(rsp));
    }
}

/// Two handles on one slot see one queue, and looking at a queue without
/// changing it leaves the whole table as it was.
pub proof fn lemma_queue_same_slot(a: SCF, b: SCF, table: Seq<Seq<SyscallResponse>>)
    requires
        a.slot_num == b.slot_num,
        a.slot_num < table.len(),
    ensures
        table[a.slot_num as int] == table[b.slot_num as int],
        table.update(a.slot_num as int, table[a.slot_num as int]) == table,
{
    assert(table.update(a.slot_num as int, table[a.slot_num as int]) =~= table);
}

/// Which tasks the answers call to wake, one answer at a time: an answer
/// whose token names a condition variable wakes exactly that variable with
/// the answer's return value, whatever that value is (zero included); an
/// answer nobody waits for wakes nobody; a run of answers wakes the tasks of
/// its first part, then those of the rest, in order.
pub proof fn lemma_wakeups_per_answer(rsp: SyscallResponse, a: Seq<SyscallResponse>, b: Seq<SyscallResponse>)
    ensures
        wakeups_of(Seq::<SyscallResponse>::empty()) == Seq::<Wakeup>::empty(),
        rsp.token.cond_var != 0 ==> wakeups_of(seq![rsp]) == seq![
            Wakeup { cond_var: rsp.token.cond_var, ret_val: rsp.ret_val },
        ],
        rsp.token.cond_var == 0 ==> wakeups_of(seq![rsp]) == Seq::<Wakeup>::empty(),
        wakeups_of(a + b) == wakeups_of(a) + wakeups_of(b),
    decreases b.len(),
{
    assert(seq![rsp].drop_last() =~= Seq::<SyscallResponse>::empty());
    if b.len() == 0 {
        assert(a + b =~= a);
        assert(wakeups_of(a) + wakeups_of(b) =~= wakeups_of(a));
    } else {
        lemma_wakeups_per_answer(rsp, a, b.drop_last());
        assert((a + b).drop_last() =~= a + b.drop_last());
        assert((a + b).last() == b.last());
        if b.last().token.cond_var != 0 {
            assert(wakeups_of(a) + wakeups_of(b) =~= (wakeups_of(a) + wakeups_of(b.drop_last())).push(
                Wakeup { cond_var: b.last().token.cond_var, ret_val: b.last().ret_val },
            ));
        }
    }
}

/// The number of wakeups is the number of answers whose token names a
/// condition variable.
pub open spec fn waited_answers(rs: Seq<SyscallResponse>) -> nat {
    rs.filter(|r: SyscallResponse| r.token.cond_var != 0).len()
}

/// Every answer somebody waits for is delivered: there are exactly as many
/// wakeups as answers with a valid token.
pub proof fn lemma_every_waiter_woken(rs: Seq<SyscallResponse>)
    ensures
        wakeups_of(rs).len() == waited_answers(rs),
    decreases rs.len(),
{
    reveal(Seq::filter);
    if rs.len() > 0 {
        lemma_every_waiter_woken(rs.drop_last());
    }
}

/// A table's wakeups are its slots' wakeups, slot after slot: a table of one
/// queue wakes that queue's tasks, and a table split in two wakes the tasks
/// of the first part, then those of the second.
pub proof fn lemma_table_wakeups_by_slot(
    q: Seq<SyscallResponse>,
    a: Seq<Seq<SyscallResponse>>,
    b: Seq<Seq<SyscallResponse>>,
)
    ensures
        table_wakeups(Seq::<Seq<SyscallResponse>>::empty()) == Seq::<Wakeup>::empty(),
        table_wakeups(seq![q]) == wakeups_of(q),
        table_wakeups(a + b) == table_wakeups(a) + table_wakeups(b),
    decreases b.len(),
{
    assert(seq![q].drop_last() =~= Seq::<Seq<SyscallResponse>>::empty());
    assert(seq![q].last() == q);
    assert(table_wakeups(Seq::<Seq<SyscallResponse>>::empty()) == Seq::<Wakeup>::empty());
    assert(table_wakeups(seq![q]) =~= Seq::<Wakeup>::empty() + wakeups_of(q));
    assert(table_wakeups(seq![q]) =~= wakeups_of(q));
    if b.len() == 0 {
        assert(a + b =~= a);
        assert(table_wakeups(a) + table_wakeups(b) =~= table_wakeups(a));
    } else {
        lemma_table_wakeups_by_slot(q, a, b.drop_last());
        assert((a + b).drop_last() =~= a + b.drop_last());
        assert((a + b).last() == b.last());
        assert(table_wakeups(a) + table_wakeups(b) =~= (table_wakeups(a) + table_wakeups(b.drop_last()))
            + wakeups_of(b.last()));
    }
}

} // verus!
