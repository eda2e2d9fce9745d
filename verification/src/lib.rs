//! Verified core of the BS2 tool suite: the decisions behind the manager
//! (setup, projects, configuration) and the tools launcher.

pub mod ident;
pub mod text;
pub mod disk;
pub mod paths;
pub mod config;
pub mod setup;
pub mod setup_run;
pub mod projects;
pub mod launcher;
