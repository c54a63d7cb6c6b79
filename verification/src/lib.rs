//! A declarative command-line-interface generator: command signatures are
//! turned into argument schemas, and built commands are composed into a
//! nested dispatch tree with subcommand routing.
pub mod builder;
pub mod commands;
pub mod compose;
pub mod errors;
pub mod ident;
pub mod label;
pub mod laws;
pub mod listparse;
pub mod numtext;
pub mod schema;
pub mod tree;
