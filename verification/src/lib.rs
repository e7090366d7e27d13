//! Native-shell logic of a tsumego (Go problem) trainer.
//!
//! The shell owns four pieces of logic, each modeled and verified here:
//! the static application menu tree, the router that maps a selected menu
//! identifier to a navigation event or a native action, the lifecycle of the
//! singleton "problem" viewer window, and the schema-migration bootstrap for
//! the relational store. The native collaborators (window manager, event
//! bus, dialog presenter, storage plugins) live outside this crate; they
//! receive plain values computed here and perform the I/O themselves.

pub mod menu;
pub mod migrations;
pub mod router;
pub mod text;
pub mod windows;
