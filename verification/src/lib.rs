//! Staze: a keyboard-driven time tracker. This crate holds the screens'
//! state machines, the text they display and the rules that tie them
//! together; the terminal, the clock and the database are driven from
//! the binary around it.

pub mod text;
pub mod key;
pub mod clock;
pub mod session;
pub mod history;
pub mod tags;
pub mod home;
pub mod tracker;
