//! Decision core of a bridge between a thread-affine, callback-driven native
//! debugger engine and asynchronous callers.
//!
//! The engine may only be touched from the thread that created its handle, so
//! one dedicated worker owns it and everything else crosses over channels. This
//! crate holds the rules of that arrangement as pure state machines: what the
//! worker does next after each thing that happens to it, and what the
//! caller-facing side answers in each lifecycle state. The surrounding program
//! performs the blocking and asynchronous work that the machines ask for.

pub mod error;
pub mod facade;
pub mod laws;
pub mod worker;

pub use crate::error::DebuggerError;
pub use crate::facade::WinDbg;
pub use crate::worker::WorkerLoop;
