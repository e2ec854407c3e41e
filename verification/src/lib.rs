//! Core of a terminal debugger view for a virtual-machine execution trace.
//!
//! The library turns a program's instruction stream into an address-indexed
//! display form, looks display lines up by address, partitions the terminal
//! area among panes, resolves which status message to show, and assembles
//! the text of every pane. It performs no I/O: a thin shell converts the
//! engine's data into the plain values these modules work on and paints the
//! text this library hands back.

pub mod action;
pub mod home;
pub mod index;
pub mod layout;
pub mod message;
pub mod panes;
pub mod program;
pub mod state;
pub mod text;
