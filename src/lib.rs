//! Version resolution and service control for a single tunnel daemon.
//!
//! `github` turns a release catalog into platform-correct download targets,
//! `systemd` drives and queries the daemon's unit through the service manager,
//! and `commands` maps the command-line selection onto one task.
pub mod commands;
pub mod github;
pub mod systemd;
pub mod text;
