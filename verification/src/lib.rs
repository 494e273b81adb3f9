//! A live socket-activity tracer: kernel probes observe socket syscalls
//! (`bind`, `connect`, `recvfrom`, `sendto`) and TCP state transitions,
//! correlate syscall entries with their exits, and stream decoded events
//! through a bounded per-CPU pipeline to a single consumer.
//!
//! This crate holds the verified core: the wire event types, the probe
//! decode and correlation logic (stated over the raw bytes a tracepoint
//! invocation supplies), the bounded in-flight call table, the per-CPU
//! reader and dispatch-channel model, the tracepoint attach plan, and the
//! event processor that renders events as text lines.

pub mod address;
pub mod attach;
pub mod dispatch;
pub mod events;
pub mod inflight;
pub mod probes;
pub mod processor;
pub mod render;
pub mod wire;
