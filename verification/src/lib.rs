//! Verified logic of a desktop helper that installs, builds, updates and runs a
//! local whisper.cpp speech-to-text server: where things live, which commands
//! run in which order, what progress is reported, how the search path is built,
//! and the state that keeps one install and one server at a time.

pub mod commands;
pub mod deps;
pub mod job;
pub mod layout;
pub mod messages;
pub mod pathenv;
pub mod payloads;
pub mod plans;
pub mod server;
pub mod state;
pub mod text;
pub mod updater;
