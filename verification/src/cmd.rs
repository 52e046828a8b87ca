//! The decisions behind the `klasp` subcommands.

pub mod demo;
pub mod doctor;
pub mod install;
pub mod plugins;
pub mod setup;
