//! Turn-processing core of a turn-based tactical roguelike.
//!
//! The engine owns the change queue, the turn phase, the visibility memory
//! and the periodic status-event ledger. Everything that lives outside it
//! (component storage, pathfinding, line of sight, rule validation, level
//! generation) is reached through a request/reply protocol: the engine hands
//! out a [`protocol::Request`], the caller performs it and answers with a
//! [`protocol::Reply`].

pub mod vecs;
pub mod coord;
pub mod meter;
pub mod event;
pub mod change;
pub mod grid;
pub mod visibility;
pub mod queue;
pub mod levels;
pub mod world;
pub mod npc;
pub mod action;
pub mod ledger;
pub mod random;
pub mod protocol;
pub mod model;
pub mod state;
pub mod campaign;
pub mod meter_view;
pub mod terrain;
pub mod nearest;
pub mod info;
pub mod snapshot;
pub mod theorems;
pub mod replay;
