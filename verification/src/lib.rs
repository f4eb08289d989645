//! Session management for shells attached to pseudo-terminals.
//!
//! The crate holds every decision of a terminal host: which sessions exist,
//! what is spawned for a new one, what a reader reports for each read, and
//! where a write or a resize goes. It performs no input or output itself. The
//! host opens the pseudo-terminal, spawns the process, reads, writes and emits
//! notifications, and asks this crate at each step what to do next.
pub mod command;
pub mod failure;
pub mod geometry;
pub mod notification;
pub mod reader;
pub mod table;
