//! Reusable text-editing widgets.

pub mod textarea;
pub mod textbox;
