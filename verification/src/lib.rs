//! AtFlow: the decisions behind a terminal file flow, with their contracts.

pub mod text;
pub mod path_display;
pub mod ui;
pub mod shell;
pub mod history;
pub mod config;
pub mod cli;
pub mod paths;
pub mod flow;
pub mod open;
pub mod init;
pub mod search;
pub mod settings;
pub mod commands;
