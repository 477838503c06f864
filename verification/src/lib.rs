//! Verified core of the Spark serial terminal: notification settings,
//! colour themes, baud-rate selection, port-path handling and the
//! connect/disconnect decisions of the main window.

pub mod baud;
pub mod common;
pub mod config;
pub mod connection;
pub mod port;
pub mod report;
pub mod text;

use vstd::prelude::*;

verus! {

} // verus!
