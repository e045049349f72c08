//! Event-loop adapter between a platform-neutral window event model and a
//! native, callback-driven GUI run loop, with the MIME helpers used when
//! serving content to a window.

pub mod mimetype;
pub mod window;
pub mod event;
pub mod registry;
mod channel;
pub mod state;
pub mod event_loop;
pub mod laws;
