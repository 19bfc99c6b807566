//! A small language for synthetic keyboard input, compiled into key events
//! and hotkey descriptors, with the data of mouse events beside it.
//!
//! The library computes and never touches the platform: it is handed what
//! the platform knows as plain values, the scans of characters and the size
//! of the screen, and hands back the records to inject and the decisions of
//! the loop that waits for keys to be released.

pub mod keyboard;
pub mod mouse;
pub mod window;
