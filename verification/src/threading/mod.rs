pub mod monitor;
pub mod scheduler;
pub mod thread;
