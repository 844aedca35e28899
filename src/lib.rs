//! Menu-driven file transfer between an Android device and a PC.
//!
//! The library holds the decisions of the interactive tool: how a typed line
//! selects a menu entry, how a directory listing is split into file names,
//! which external commands are run, and the navigation state machine that
//! ties them together. Running processes, reading the terminal and the
//! configuration file are left to the caller.

pub mod input;
pub mod listing;
pub mod config;
pub mod command;
pub mod navigation;
