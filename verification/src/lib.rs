//! Provisioning rules for a Godot runtime: resolving and validating the
//! requested release, building the download locations, and deciding which
//! entries of a release archive are installed and where.

pub mod config;
pub mod extract;
pub mod install;
pub mod pattern;
pub mod text;
pub mod url;
