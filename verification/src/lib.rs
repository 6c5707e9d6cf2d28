//! Core data model for a track-based integrated-circuit layout tool.
//!
//! A [`cell::Cell`] is a named, reusable design unit carrying up to four
//! alternative views (interface, abstract, layout implementation, raw layout).
//! Geometric queries resolve through the views by a fixed priority.  A
//! [`cell::Layout`] composes lower-level cells through placed
//! [`cell::Instance`]s and records net-to-track assignments and track cuts.
//! Cells are shared through an arena ([`store::CellArena`]), so many instances
//! may reference one definition without forming a recursive ownership chain.

pub mod bbox;
pub mod cell;
pub mod coords;
pub mod outline;
pub mod placement;
pub mod raw;
pub mod store;
pub mod text;
pub mod tracks;
