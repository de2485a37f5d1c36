//! The decisions behind the commands that fetch, list and push raw Git refs.
//!
//! A command is a sequence of steps. Each step names one piece of work that has to be done
//! outside, such as reading a setting or talking to a remote; the command's function takes
//! what came of it and gives the next step, until the last step says how the command ended.
//! What the functions do is stated over the views of steps and replies, and the `_laws`
//! modules prove what holds of every step and of every run.

pub mod command;
pub mod error;
pub mod fetch;
pub mod fetch_laws;
pub mod fetch_run_laws;
pub mod fetch_step_laws;
pub mod ids;
pub mod list;
pub mod list_laws;
pub mod names;
pub mod push;
pub mod push_laws;
pub mod push_step_laws;
pub mod target;
pub mod text;
pub mod view_laws;
