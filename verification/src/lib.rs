//! Planning and message logic of a small command-line uploader for anonymous
//! file hosting services: which service a configuration names, which files an
//! upload takes, which of them a service refuses, what the user is asked and
//! told, and how the configuration menu moves.

pub mod api;
pub mod cli;
pub mod config;
pub mod files;
pub mod laws;
pub mod menu;
pub mod options;
pub mod paths;
pub mod status;
pub mod text;
pub mod upload;
