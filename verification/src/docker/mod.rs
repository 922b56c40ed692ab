//! What the daemon asks of Docker: images, paths in volumes, networks and
//! container settings.
pub mod images;
pub mod volume_shell;
pub mod network;
pub mod containers;
pub mod bootstrap;
pub mod exec;
pub mod logs;
pub mod install;
pub mod stats;
