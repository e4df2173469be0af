//! Verified core of a terminal workspace for parallel git worktrees.
use vstd::prelude::*;

pub mod git_parser;
pub mod text;
pub mod types;
pub mod config;
pub mod portal;
pub mod embed;
pub mod pty;
pub mod grid;
pub mod colors;
pub mod renderer;
pub mod terminal;
pub mod git_commands;
pub mod app_state;
pub mod panels;
