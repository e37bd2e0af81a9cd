//! A local-first run engine that drives an AI agent through a list of tasks.
//!
//! The library holds the rules of a run: the task list, the policy on file
//! changes, the parser of requirement documents, the state machine of a run
//! and of one iteration, and the state and contents of the terminal interface.
//! Reading files, running commands and drawing are left to the program around
//! it.

pub mod cli;
pub mod config;
pub mod engine;
pub mod event;
pub mod glob;
pub mod iteration;
pub mod iteration_laws;
pub mod key_laws;
pub mod letters;
pub mod number;
pub mod path;
pub mod policy;
pub mod porcelain;
pub mod prd_laws;
pub mod prd_parser;
pub mod prompt;
pub mod run;
pub mod screen;
pub mod search;
pub mod task;
pub mod text;
pub mod tui;
pub mod tui_input;
pub mod tui_laws;
pub mod tui_view;
pub mod utf8;
pub mod validation;
pub mod view_laws;
pub mod workspace;
