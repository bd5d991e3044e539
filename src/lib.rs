//! Command layer of a small project workspace: greeting and directory
//! commands, and the decisions behind compiling a project with an external
//! interpreter-hosted compiler.
pub mod commands;
pub mod runner;
