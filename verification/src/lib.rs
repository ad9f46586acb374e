//! Turns a single source file, or a literal expression, into a buildable
//! package, and decides when a cached build of it has gone stale.

pub mod action;
pub mod arguments;
pub mod cache;
pub mod comment;
pub mod config;
pub mod eval;
pub mod hasher;
pub mod input;
pub mod manifest;
pub mod markdown;
pub mod ops;
pub mod paths;
pub mod platform;
pub mod session;
pub mod source;
pub mod table;
pub mod templates;
pub mod text;
pub mod timing;
