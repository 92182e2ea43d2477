//! Core logic of a remote control deck: button screens, plugin metadata,
//! variable rendering and configuration round trips.

pub mod text;
pub mod datatype;
pub mod error;
pub mod keyed;
pub mod buttons;
pub mod screen;
pub mod strmap;
pub mod screens;
pub mod config;
pub mod plugin;
pub mod models;
pub mod listing;
pub mod store;
pub mod render;
pub mod icon_store;
pub mod deck;
pub mod mock;
pub mod bundled;
pub mod loading;
