//! Subcommand logic. One module per command for easy navigation.

pub mod common;
pub mod build_cmd;
pub mod run;
pub mod new;
pub mod init;
pub mod version;
pub mod check;
pub mod clean;
pub mod fmt;
pub mod test;
pub mod tidy;
