// A desktop-portal backend: the appearance settings it serves and reloads,
// and the requests and sessions that callers open on it.

use vstd::prelude::*;

pub mod comm;
pub mod config;
pub mod portal;
pub mod screencast;
pub mod settings;
pub mod text;
pub mod toml_config;
pub mod watcher;

verus! {

} // verus!
