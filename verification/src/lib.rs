//! Verified decision logic for an airborne video node and its terminal dashboard.
use vstd::prelude::*;

pub mod action;
pub mod camera_state;
pub mod cockpit;
pub mod command;
pub mod command_laws;
pub mod config;
pub mod discover;
pub mod encoder;
pub mod health;
pub mod ipc;
pub mod json;
pub mod lifecycle;
pub mod lifecycle_laws;
pub mod links;
pub mod mediamtx;
pub mod model;
pub mod orchestrator;
pub mod poll;
pub mod process;
pub mod profile;
pub mod reach;
pub mod recorder;
pub mod secondary;
pub mod shell;
pub mod splice;
pub mod stderr_drain;
pub mod tap;
pub mod text;
pub mod theme;
pub mod ui;
pub mod ui_laws;
pub mod update;
pub mod wfb_tee;
pub mod wire;
pub mod yaml;

verus! {

} // verus!
