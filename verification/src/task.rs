use vstd::prelude::*;

verus! {

/// Argument of the first test kernel task.
pub const TEST_TASK_ARG_A: usize = 0xdead;

/// Argument of the second test kernel task.
pub const TEST_TASK_ARG_B: usize = 0xbeef;

/// How a task handed to the task manager was made.
#[derive(Clone, Copy, Debug, PartialEq, Eq, Structural)]
pub enum TaskKind {
    /// The root task, which reaps orphans and shuts down when none are left.
    Root,
    /// A kernel task running with this argument.
    Kernel { arg: usize },
    /// The user shell; `with_scf` when its syscalls are forwarded.
    UserShell { with_scf: bool },
}

/// The tasks boot hands to the task manager, in order.
pub open spec fn boot_tasks(with_scf: bool) -> Seq<TaskKind> {
    seq![
        TaskKind::Root,
        TaskKind::Kernel { arg: 0xdead },
        TaskKind::Kernel { arg: 0xbeef },
        TaskKind::UserShell { with_scf: with_scf },
    ]
}

/// The task manager's record: the tasks spawned so far, in order, and
/// whether task initialisation has finished.
pub struct TaskTable {
    inited: bool,
    spawned: Vec<TaskKind>,
}

impl View for TaskTable {
    type V = (bool, Seq<TaskKind>);

    closed spec fn view(&self) -> (bool, Seq<TaskKind>) {
        (self.inited, self.spawned@)
    }
}

impl TaskTable {
    /// No task spawned, initialisation not done.
    pub fn new() -> (t: Self)
        ensures
            !t@.0,
            t@.1 == Seq::<TaskKind>::empty(),
    {
        TaskTable { inited: false, spawned: Vec::new() }
    }

    /// Whether task initialisation has finished.
    pub fn is_init(&self) -> (b: bool)
        ensures
            b == self@.0,
    {
        self.inited
    }

    /// Hands a task to the task manager.
    pub fn spawn_task(&mut self, task: TaskKind)
        ensures
            final(self)@ == (old(self)@.0, old(self)@.1.push(task)),
    {
        self.spawned.push(task);
    }

    /// The tasks spawned so far, in order.
    pub fn spawned(&self) -> (v: Vec<TaskKind>)
        ensures
            v@ == self@.1,
    {
        self.spawned.clone()
    }

    /// Task initialisation: spawns the root task, the two test kernel tasks
    /// (arguments 0xdead and 0xbeef) and the user shell, then marks
    /// initialisation as finished.
    pub fn init(&mut self, with_scf: bool)
        requires
            !old(self)@.0,
        ensures
            final(self)@.0,
            final(self)@.1 == old(self)@.1 + boot_tasks(with_scf),
    {
        self.spawn_task(TaskKind::Root);
        self.spawn_task(TaskKind::Kernel { arg: TEST_TASK_ARG_A });
        self.spawn_task(TaskKind::Kernel { arg: TEST_TASK_ARG_B });
        self.spawn_task(TaskKind::UserShell { with_scf });
        self.inited = true;
        assert(self.spawned@ =~= old(self)@.1 + boot_tasks(with_scf));
    }
}

/// What the root task does next.
#[derive(Clone, Copy, Debug, PartialEq, Eq, Structural)]
pub enum RootStep {
    /// A child was reaped: wait for the next one.
    ReapAgain,
    /// No child is left: shut the machine down.
    Shutdown,
    /// Children are still running: give the processor away, then wait again.
    Yield,
}

/// The root task's step after one `waitpid(-1)` that answered
/// `wait_answer`, with `children_left` children still recorded.
pub open spec fn root_step(wait_answer: isize, children_left: usize) -> RootStep {
    if wait_answer > 0 {
        RootStep::ReapAgain
    } else if children_left == 0 {
        RootStep::Shutdown
    } else {
        RootStep::Yield
    }
}

/// The root task's decision after one `waitpid(-1)`: keep reaping while it
/// returns a pid; once it does not, shut down if no child is left and yield
/// otherwise.
pub fn root_task_next(wait_answer: isize, children_left: usize) -> (step: RootStep)
    ensures
        step == root_step(wait_answer, children_left),
        wait_answer > 0 ==> step == RootStep::ReapAgain,
        wait_answer <= 0 && children_left == 0 ==> step == RootStep::Shutdown,
        wait_answer <= 0 && children_left != 0 ==> step == RootStep::Yield,
{
    if wait_answer > 0 {
        RootStep::ReapAgain
    } else if children_left == 0 {
        RootStep::Shutdown
    } else {
        RootStep::Yield
    }
}

/// The root task never shuts the machine down while it still has a child,
/// and never stops: every step either waits again or yields and comes back.
pub proof fn lemma_root_never_abandons_children(wait_answer: isize, children_left: usize)
    ensures
        children_left != 0 ==> root_step(wait_answer, children_left) != RootStep::Shutdown,
        root_step(wait_answer, children_left) == RootStep::Shutdown ==> children_left == 0
            && wait_answer <= 0,
{
}

/// The root task spawned by task initialisation comes first, ahead of every
/// task it will reap.
pub proof fn lemma_boot_spawns_root_first(with_scf: bool)
    ensures
        boot_tasks(with_scf)[0] == TaskKind::Root,
        boot_tasks(with_scf).len() == 4,
{
}

/// Boot spawns four tasks: the root task, the test kernel task with argument
/// 0xdead, the one with argument 0xbeef, and last the one user shell, which
/// forwards its syscalls exactly when `with_scf`; no other boot task is a
/// shell.
pub proof fn lemma_boot_tasks_shape(with_scf: bool)
    ensures
        boot_tasks(with_scf).len() == 4,
        boot_tasks(with_scf)[0] == TaskKind::Root,
        boot_tasks(with_scf)[1] == (TaskKind::Kernel { arg: 0xdead }),
        boot_tasks(with_scf)[2] == (TaskKind::Kernel { arg: 0xbeef }),
        boot_tasks(with_scf)[3] == (TaskKind::UserShell { with_scf: with_scf }),
        forall|i: int| 0 <= i < 3 ==> !(#[trigger] boot_tasks(with_scf)[i] is UserShell),
{
}

} // verus!
