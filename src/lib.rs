//! A small turn-based text-adventure engine: rooms, entities and actors, a parser for typed
//! commands, and scripted events that react to what the player does.

pub mod direction;
pub mod text;
pub mod ids;
pub mod entity;
pub mod actor;
pub mod room;
pub mod command;
pub mod condition;
pub mod event;
pub mod victory;
pub mod state;
pub mod rules;
pub mod parser;
pub mod turn;
pub mod laws;
