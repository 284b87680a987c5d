//! Verified core of the `mnem` command-line client: argument parsing,
//! command routing, text helpers and the decisions behind each command.

pub mod text;
pub mod cli;
pub mod commands;
pub mod dispatcher;
pub mod fmt;
pub mod nav;
pub mod restore;
pub mod timeline;
pub mod tui;
pub mod dates;
pub mod preview;
pub mod search;
pub mod paths;
pub mod config;
pub mod track;
pub mod activity;
pub mod daemon;
pub mod update;
pub mod blame;
pub mod info;
pub mod checkpoint;
pub mod filehistory;
pub mod options;
pub mod help;
pub mod diffcmd;
pub mod files;
pub mod projects;
pub mod commits;
