//! Installation and state management for game addons: where addons live,
//! which archive to download for one, which of its entries may be written
//! where, and the ledger of what is installed.

pub mod archive;
pub mod catalog;
pub mod clock;
pub mod config;
pub mod error;
pub mod extract;
pub mod fetch;
pub mod ledger;
pub mod locations;
pub mod manager;
pub mod model;
pub mod path;
pub mod resolver;
pub mod text;
