//! Verified model of a small cooperative kernel core: timekeeping advanced by
//! the periodic timer interrupt, a bounded input-event queue, a round-robin
//! context scheduler, the interrupt dispatcher, the debug console, and the
//! one-shot bring-up sequence.
//!
//! Hardware effects (port writes, the session black box, system calls) are
//! returned to the caller as plain action values; an unverified runner
//! performs them and feeds the results back in.
pub mod bringup;
pub mod context;
pub mod dispatch;
pub mod event;
pub mod machine;
pub mod paging;
pub mod queue;
pub mod session;
pub mod text;
pub mod time;
