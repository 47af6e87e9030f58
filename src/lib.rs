//! A cross-fade controller for a frame-driven scene host.
//!
//! The controller owns the scene (or the pair of scenes) of the current
//! phase and decides, tick by tick, how far the fade has gone, what alpha
//! the full-window overlay gets, when the incoming scene is started and
//! when the outgoing one is handed back.

pub mod lemmas;
pub mod transition;
