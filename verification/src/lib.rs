//! Core of an editor host's window-system glue.
//!
//! Two areas live here. The first lets a host that is built around a
//! blocking, multiplexed wait on file descriptors observe GUI events that a
//! callback-driven event loop produces: the decisions of that adapter are
//! state machines over plain values, and the process that owns the real event
//! loop feeds them and carries out what they ask for. The second is the scanner
//! that finds exported functions in a crate's sources and composes the glue
//! files that make them visible to the host.
pub mod event;
pub mod buffer;
pub mod clock;
pub mod bridge;
pub mod adapter;
pub mod text;
pub mod lint;
pub mod module;
pub mod outside;
pub mod parser;
pub mod exports;
