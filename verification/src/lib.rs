//! Result-copying scheduler for a distributed job server.
//!
//! After a remote machine finishes a job, its output artifacts are copied
//! back to the central host by an external transfer process. This library
//! holds the scheduler for those copies: a FIFO intake queue, a bounded set
//! of running transfers, a failure classifier (with a terminal
//! unknown-host-key outcome), a fixed retry budget, and an outcome table
//! written exactly once per completed job. The surrounding process loop
//! (spawning, polling and killing transfer processes, reading environment
//! variables, opening log files) lives outside the library and feeds plain
//! events into it.

pub mod classify;
pub mod command;
pub mod request;
pub mod scheduler;

pub use request::CopierThreadResult;
pub use request::CopyJobInfo;
pub use scheduler::copy;
pub use scheduler::CopierThreadQueue;
pub use scheduler::CopierThreadState;
