use vstd::prelude::*;

verus! {

/// The answer of `waitpid` that asks the caller to yield and ask again:
/// the awaited child has not exited yet.
pub const WAIT_AGAIN: isize = -2;

/// A wait for a child: the pid handed to the kernel's `waitpid`
/// (-1: any child).
#[derive(Clone, Copy, Debug, PartialEq, Eq, Structural)]
pub struct WaitRequest {
    pub pid: isize,
}

/// What to do with one answer of the kernel's `waitpid`.
#[derive(Clone, Copy, Debug, PartialEq, Eq, Structural)]
pub enum WaitStep {
    /// Yield the processor, then ask again.
    Retry,
    /// The wait is over with this result: -1 or the pid of the exited child.
    Exited(isize),
}

/// The step that one answer of the kernel's `waitpid` leads to.
pub open spec fn wait_step(answer: isize) -> WaitStep {
    if answer == -2 {
        WaitStep::Retry
    } else {
        WaitStep::Exited(answer)
    }
}

/// A wait for any child.
pub fn wait() -> (req: WaitRequest)
    ensures
        req.pid == -1,
{
    WaitRequest { pid: -1 }
}

/// A wait for the child with this pid.
pub fn waitpid(pid: usize) -> (req: WaitRequest)
    ensures
        req.pid == (#[verifier::truncate] (pid as isize)),
{
    WaitRequest { pid: #[verifier::truncate] (pid as isize) }
}

impl WaitRequest {
    /// What the wait does with one answer of the kernel: -2 means the child
    /// is still running, so yield and ask again; any other answer ends the
    /// wait and is its result.
    pub fn next(&self, answer: isize) -> (step: WaitStep)
        ensures
            step == wait_step(answer),
    {
        if answer == WAIT_AGAIN {
            WaitStep::Retry
        } else {
            WaitStep::Exited(answer)
        }
    }
}

/// A wait ends exactly on an answer other than -2, and then with that
/// answer as its result.
pub proof fn lemma_wait_ends_with_answer(answer: isize)
    ensures
        wait_step(answer) == WaitStep::Retry <==> answer == -2,
        answer != -2 ==> wait_step(answer) == WaitStep::Exited(answer),
{
}

/// The number of threads a process can spawn.
pub const MAX_THREADS: usize = 16;

/// The size of each thread's stack, in bytes.
pub const THREAD_STACK_SIZE: usize = 4096 * 4;

/// The top of the stack of thread `id` in a stack area starting at `base`:
/// the end of its slot, stacks lying one after another.
pub open spec fn stack_top(base: usize, id: int) -> int {
    base + (id + 1) * THREAD_STACK_SIZE
}

/// The process's area of thread stacks and the count of threads given one.
pub struct ThreadStacks {
    base: usize,
    count: usize,
}

impl View for ThreadStacks {
    type V = (usize, nat);

    closed spec fn view(&self) -> (usize, nat) {
        (self.base, self.count as nat)
    }
}

impl ThreadStacks {
    /// The whole area fits in the address space.
    #[verifier::type_invariant]
    spec fn fits(&self) -> bool {
        self.base + MAX_THREADS * THREAD_STACK_SIZE <= usize::MAX
    }

    /// An area of `MAX_THREADS` stacks starting at `base`, none handed out.
    pub fn new(base: usize) -> (t: Self)
        requires
            base + MAX_THREADS * THREAD_STACK_SIZE <= usize::MAX,
        ensures
            t@ == (base, 0nat),
    {
        ThreadStacks { base, count: 0 }
    }

    /// The number of stacks handed out.
    pub fn count(&self) -> (n: usize)
        ensures
            n == self@.1,
    {
        self.count
    }

    /// Gives the next thread its stack: returns the stack pointer the new
    /// thread starts with, the top of the next unused slot.
    pub fn thread_spawn(&mut self) -> (newsp: usize)
        requires
            old(self)@.1 < MAX_THREADS,
        ensures
            newsp == stack_top(old(self)@.0, old(self)@.1 as int),
            final(self)@ == (old(self)@.0, old(self)@.1 + 1),
    {
        proof {
            use_type_invariant(&*self);
        }
        let thread_id: usize = self.count;
        self.count = self.count + 1;
        assert((thread_id + 1) * 16384 <= 16 * 16384) by (nonlinear_arith)
            requires thread_id < 16;
        self.base + (thread_id + 1) * THREAD_STACK_SIZE
    }
}

/// Threads spawned one after another get disjoint stacks: each earlier
/// thread's stack ends at or below where a later thread's stack begins.
pub proof fn lemma_stacks_disjoint(base: usize, i: int, j: int)
    requires
        0 <= i < j,
    ensures
        stack_top(base, i) <= stack_top(base, j) - THREAD_STACK_SIZE,
{
    assert(THREAD_STACK_SIZE == 16384);
    assert((i + 1) * 16384 <= j * 16384) by (nonlinear_arith)
        requires i < j;
}

/// Waiting for the child whose pid has every bit set is waiting for any
/// child: the request is the one `wait` makes.
pub proof fn lemma_waitpid_all_ones_is_wait(pid: usize)
    requires
        pid == usize::MAX,
    ensures
        (#[verifier::truncate] (pid as isize)) == -1isize,
{
    assert(usize::BITS == 32 || usize::BITS == 64);
    if usize::BITS == 64 {
        assert(pid as u64 == 0xffff_ffff_ffff_ffffu64);
        assert((#[verifier::truncate] (pid as isize)) == -1isize) by (bit_vector)
            requires
                usize::BITS == 64,
                pid as u64 == 0xffff_ffff_ffff_ffffu64;
    } else {
        assert(pid as u64 == 0xffff_ffffu64);
        assert((#[verifier::truncate] (pid as isize)) == -1isize) by (bit_vector)
            requires
                usize::BITS == 32,
                pid as u64 == 0xffff_ffffu64;
    }
}

} // verus!
