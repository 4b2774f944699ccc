//! The core of a tray volume applet: the registry of known audio outputs
//! and how a new snapshot is reconciled with it, the table of enumerations
//! in flight with its staleness guard, the volume and mute commands, the
//! reconnect supervisor, option parsing and the text shown to the user.
use vstd::prelude::*;

pub mod command;
pub mod connection;
pub mod diff;
pub mod dispatcher;
pub mod elements;
pub mod exception;
pub mod geometry;
pub mod options;
pub mod registry;
pub mod session;
pub mod templates;

verus! {

} // verus!
