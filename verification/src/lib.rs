//! A capacity-bounded, action-logged pixel grid editor core.
//!
//! The crate models a workspace of named two-dimensional pixel grids edited
//! through discrete tools (paint, erase, clear, resize, grid management).
//! Every user action is recorded in a bounded history that supports undo and
//! redo by replaying the remaining actions over a periodically folded base
//! snapshot, while the sparse cell store itself is bounded by a capacity and
//! reports overflow when a new insertion would exceed it.
//!
//! [`log::Log`] is the entry point: it owns the live [`grids::Grids`] cell
//! store, the action history and the editor buffers. The properties the
//! engine promises are stated and proved in [`laws`].

pub mod action;
pub mod args;
pub mod brush;
pub mod brushcolor;
pub mod cell;
pub mod generationnumber;
pub mod gridname;
pub mod grids;
pub mod laws;
pub mod log;
pub mod palette;
pub mod pixel;
pub mod setter;
pub mod text;
pub mod texturessettings;
pub mod tools;
