//! Search an image-hosting service, cache its images locally and apply one
//! as the desktop wallpaper.
//!
//! The library holds the decisions: how cache paths are derived, when the
//! thumbnail cache is pruned, which command sets the wallpaper on which
//! platform, and how the single background video process is handed over.
//! The caller performs the file, network and process work that those
//! decisions ask for.

pub mod command;
pub mod download;
pub mod janitor;
pub mod launcher;
pub mod locations;
pub mod models;
pub mod naming;
pub mod os;
pub mod search;
pub mod text;
pub mod wallpaper;
