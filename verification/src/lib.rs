//! A bridge from a window's raw message stream to typed application events.
//!
//! A native window receives untyped messages: a number and two machine words.
//! One notification of interest, the re-creation of the taskbar, has no fixed
//! number. Its number is obtained at run time by registering a name, and is
//! then recognised among the messages that reach the window's subclass
//! procedure.
//!
//! This crate holds the decisions of such a procedure and none of its effects.
//! [`winproc`] takes the process-wide [`Registration`], the window's
//! [`ContextSlot`] and a message number, and answers with an [`Action`] that
//! the caller carries out: register the name, inject an event, drop the proxy,
//! or hand the message on to the default processing.
pub mod bridge;
pub mod message;
pub mod registration;
pub mod slot;
pub mod trace;
pub mod wide;

pub use bridge::{registered_name, winproc, Action, HANDLED, TASKBAR_CREATED};
pub use message::{AppEvent, WM_CREATE, WM_DESTROY, WM_NULL, WM_USER, WM_USER_CREATE};
pub use registration::{Phase, Registration};
pub use slot::ContextSlot;
pub use wide::encode_wide;
