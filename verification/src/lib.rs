//! Core logic of a credential-store watcher daemon.
//!
//! The library covers the pieces of the daemon that carry real protocol
//! weight and proves their behaviour:
//!
//! - [`version`]: the build version and its lexicographic order, which the
//!   single-instance takeover protocol compares.
//! - [`messaging`]: the fixed-size wire records exchanged over the named
//!   local message port, the server-side dispatch of inbound requests, and
//!   the classification of transport outcomes on the sender side.
//! - [`events`]: the change-event data model and the classification of raw
//!   credential-store callbacks into add / update / remove events.
//! - [`correlate`]: the squashing of delete-then-add bursts into single
//!   "updated" notifications, the ignore-list suppression filter, and the
//!   choice of what a notification displays.
//! - [`coordinator`]: the single-instance takeover state machine.
//! - [`context`]: the reference-counted handle that carries the server's
//!   request handler across the native callback boundary, with proofs that
//!   balanced retain/release traces free it exactly once.
//!
//! Everything platform-bound (the message-port syscalls, the native
//! callback registration, run loops, threads, configuration files and the
//! notification presenter) lives outside the library and hands it plain
//! values.

pub mod context;
pub mod coordinator;
pub mod correlate;
pub mod events;
pub mod messaging;
pub mod version;
