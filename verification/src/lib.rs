//! The event handling, interface state and login decisions of a terminal Spotify player,
//! written as verified functions on plain values.

pub mod auth;
pub mod cache;
pub mod client;
pub mod command;
pub mod error;
pub mod event;
pub mod ids;
pub mod key;
pub mod laws;
pub mod layout;
pub mod model;
pub mod page;
pub mod player;
pub mod popup;
pub mod span;
pub mod text;
pub mod ui;
