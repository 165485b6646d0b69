//! Browser/driver resolution engine.
//!
//! Given a requested browser (and optionally a pinned version), the engine
//! locates the browser executable on the local machine, determines its
//! installed version, resolves the matching driver binary and returns a
//! usable local path to it.  Each supported browser is an adapter behind
//! one polymorphic manager contract; this crate carries the shared engine
//! together with the Safari Technology Preview adapter, whose driver ships
//! bundled with the operating system and is never downloaded.

pub mod browser_path;
pub mod cache;
pub mod config;
pub mod errors;
pub mod http;
pub mod identity;
pub mod logger;
pub mod manager;
pub mod version;
