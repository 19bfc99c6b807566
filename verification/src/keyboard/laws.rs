//! What holds of every key string, every layout and every sequence of
//! events.

pub mod chord;
pub mod combination;
pub mod groups;
pub mod layout;
pub mod typing;
pub mod watch;
