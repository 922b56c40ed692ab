//! FeatherFly: the rules of a web hosting daemon, with their contracts.
pub mod actions;
pub mod api_spec;
pub mod auth;
pub mod backups;
pub mod cache;
pub mod cloudpanel;
pub mod commands;
pub mod config;
pub mod controllers;
pub mod daemon;
pub mod databases;
pub mod deployments;
pub mod dns;
pub mod docker;
pub mod health;
pub mod ids;
pub mod migrations;
pub mod text;
