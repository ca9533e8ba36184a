//! Core logic of grove: tmux sessions for coding agents, local and over SSH.
use vstd::prelude::*;

pub mod agent;
pub mod config;
pub mod error;
pub mod ssh;
pub mod text;
pub mod tmux;

verus! {

} // verus!
