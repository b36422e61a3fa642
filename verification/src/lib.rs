//! Output routing for a MIDI playback engine.
//!
//! The heart of the crate is [`output_manager::OutputManager`]: it owns a set
//! of optional backend providers and exactly one active (descriptor, sink)
//! route, and mediates enumeration of candidate outputs and safe hot-swaps
//! between them while playback keeps dispatching events.

pub mod output_manager;
pub mod tracks;
