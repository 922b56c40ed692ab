//! The command line's subcommands: their arguments and the decisions they make.
pub mod configure;
pub mod diagnostics;
pub mod docs;
pub mod install;
pub mod plugin;
pub mod service_install;
pub mod table;
pub mod update;
pub mod version;
