//! Verified core of a keyboard-driven Markdown note manager.
pub mod text;
pub mod order;
pub mod note;
pub mod front_matter;
pub mod app;
pub mod sort;
pub mod tags;
pub mod search;
pub mod settings;
pub mod theme;
pub mod keybindings;
pub mod mouse;
pub mod update;
pub mod markdown;
pub mod paths;
pub mod note_manager;
pub mod browse;
pub mod actions;
pub mod commands;
pub mod startup;
pub mod render;
pub mod cli;
pub mod ui;
pub mod timers;
pub mod laws;

use vstd::prelude::*;

verus! {

} // verus!
