//! Codex multi-account management: the account library, token health,
//! quota parsing, the quota cache, recommendation and the state machines
//! that the terminal and native front ends drive.

pub mod account;
pub mod calendar;
pub mod classic;
pub mod commands;
pub mod doctor;
pub mod dto;
pub mod json;
pub mod oauth;
pub mod official;
pub mod operation;
pub mod overview;
pub mod process;
pub mod quota;
pub mod quota_cache;
pub mod recommendation;
pub mod jwt;
pub mod text;
pub mod token_health;
pub mod tray;
pub mod tui;
pub mod tui_input;
pub mod ui;
pub mod updater;
pub mod screen;
pub mod selector;
pub mod service;
pub mod summary;
