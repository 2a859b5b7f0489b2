//! A terminal pomodoro timer: the session state machine, the daemon's command
//! dispatcher, the statistics and the text the user interface shows.

pub mod config;
pub mod config_file;
pub mod cycle;
pub mod daemon;
pub mod durations;
pub mod engine;
pub mod figlet;
pub mod history;
pub mod ignore;
pub mod merge_block;
pub mod notification;
pub mod hooks;
pub mod pages;
pub mod profile;
pub mod schema;
pub mod session;
pub mod settings;
pub mod state;
pub mod stats;
pub mod text;
pub mod tui;
pub mod waybar;
