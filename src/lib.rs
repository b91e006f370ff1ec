//! Keeps a project catalog and its downstream artifacts in step: the roster of
//! a reporting bot, the front-matter pages of a project directory, and the
//! data modules of a client directory.

pub mod bot;
pub mod bridge;
pub mod casing;
pub mod client;
pub mod front_matter;
pub mod iot;
pub mod matrixto;
pub mod other;
pub mod projects;
pub mod sdk;
pub mod server;
pub mod text;
pub mod twim_config;
