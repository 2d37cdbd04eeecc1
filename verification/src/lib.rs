//! A verified core for a command-line client that drives Philips Hue
//! lighting bridges: bridge selection, configuration handling, command
//! planning and output formatting, with the network and terminal work
//! left to a thin unverified shell.

pub mod command;
pub mod config;
pub mod error;
pub mod light;
pub mod locator;
pub mod order;
pub mod render;
