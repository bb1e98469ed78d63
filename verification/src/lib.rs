//! Binding-registry engine for an interactive text-editing host.
//!
//! The library models key-binding actions, builds validated keymaps from
//! declarative entry lists, and computes the exact sequences of host calls
//! (plans) that reset and populate the host's per-mode dispatch tables.
//! An unverified adapter performs the planned calls against the real host
//! and hands host-provided data (binding listings, option values) back in.

pub mod dispatch_table;
pub mod keymap;
pub mod keymap_remapping;
pub mod plugins;
