//! Builds invocations of the `termux-notification` commands and dispatches
//! notification callbacks that arrive as text signals.
pub mod assoc;
pub mod callback_key;
pub mod callback_map;
pub mod callbacks;
pub mod command;
pub mod notification;
pub mod options;
pub mod remove_handle;
mod text;

pub use notification::TermuxNotification;
pub use remove_handle::RemoveHandle;
