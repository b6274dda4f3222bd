//! Core logic of a small interactive tool that switches the active
//! source-control identity: it validates the environment, loads an account
//! registry, resolves the user's selection, and plans the swap of the active
//! key symlinks together with the global `user.name` / `user.email` settings.
//!
//! Everything that decides or computes lives here, verified; the thin binary
//! around this library only performs the file-system, process and console
//! work and hands plain values back and forth.

pub mod account;
pub mod activate;
pub mod registry;
pub mod selector;
pub mod text;
pub mod validate;
