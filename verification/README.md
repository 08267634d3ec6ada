# nimbos_scf

Syscall forwarding between a small kernel and a Linux side, over queues
and user interrupts, with its decisions proved by Verus.

- `src/scf.rs`: the kernel side. Forwarding slots (`SCF`), their response
  queues, and `handle_irq`, which drains every queue and names the tasks to
  wake.
- `src/uintr_scf.rs`: the user side. The shared descriptor, the
  initialisation protocol of the user-interrupt link, requests and their
  answers, the response handler's flags, and the lock around the state.
- `src/process.rs`: waiting for children and handing out thread stacks.
- `src/task.rs`: the tasks spawned at boot and the root task's decision.
- `src/timespec.rs`: sleep requests.
- `app/`: the loops that make the system calls and feed their answers to
  the library.
