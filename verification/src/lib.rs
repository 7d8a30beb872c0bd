//! Verified core of a two-pane terminal viewer for git changes.
use vstd::prelude::*;

pub mod app;
pub mod git;
pub mod gitffi;
pub mod keys;
pub mod laws;
pub mod order;
pub mod search;
pub mod text;
pub mod ui;

verus! {
} // verus!
