//! The CloudPanel command line bridge: how requests become `clpctl`
//! arguments, how its tables are read back, and which lifecycle events a
//! command raises.
pub mod tables;
pub mod parse;
pub mod command;
pub mod api;
pub mod requests;
pub mod execute;
