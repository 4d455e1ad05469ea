//! What the library promises as a whole, in terms of what goes into an operation and what comes out
//! of it.

pub mod actions;
pub mod change;
pub mod commands;
pub mod filters;
pub mod keys;
pub mod links;
pub mod login;
pub mod mouse;
pub mod pages;
pub mod search;
pub mod values;
pub mod views;
