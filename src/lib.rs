//! Effect descriptions for a declarative UI update cycle: actions that ask
//! for outside work (a future, the clipboard, a window, a dialog) and say,
//! through single-use continuations, which message the result becomes.

pub mod clipboard;
pub mod command;
pub mod continuation;
pub mod dialog;
pub mod render;
pub mod window;
