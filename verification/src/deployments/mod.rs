//! Deploying a site's code, and replacing its container without downtime.
pub mod health;
pub mod deploy;
pub mod blue_green;
