//! Back-end logic of a Steam Deck plugin that runs the Clash proxy:
//! settings and runtime state, subscription bookkeeping, the rewrite of
//! Clash configuration documents, and the values the HTTP and RPC
//! front-ends answer with.

use vstd::prelude::*;

pub mod text;
pub mod paths;
pub mod helper;
pub mod settings;
pub mod yaml;
pub mod control;
pub mod api;
pub mod web;
pub mod clashdeck;

verus! {

/// The name the back-end reports itself under.
pub const NAME: &'static str = "tomoon";

/// The version the back-end reports.
pub const VERSION: &'static str = "0.1.0";

} // verus!
