//! Launching web addresses and local programs on behalf of a desktop shell.
//!
//! The library decides; the program around it acts. It assembles the command
//! line for a launch, tells its driver when to spawn, wait and kill, and turns
//! what the operating system reported into a result.

pub mod autostart;
pub mod command_runner;
pub mod commands;
pub mod config;
pub mod config_manager;
pub mod environment;
pub mod error;
pub mod execution;
pub mod launcher;
pub mod platform;
pub mod text;
