//! Castle: a small project manager for C++ projects built with Clang.

pub mod error;
pub mod manifest;
pub mod text;
pub mod path;
pub mod backend;
pub mod execution;
pub mod templates;
pub mod project;
pub mod commands;
pub mod toolchain;
pub mod cli;
pub mod output;
pub mod laws;
