pub mod process;
pub mod scf;
pub mod task;
pub mod timespec;
pub mod uintr_scf;
