//! Client-side core of the CaoLo simulation protocol: the wire model, the JSON
//! codec, terrain reconstruction and the connection state machine.

pub mod commands;
pub mod config;
pub mod connection;
pub mod decode;
pub mod encode;
pub mod entities;
pub mod error;
pub mod events;
pub mod frames;
pub mod handler;
pub mod json;
pub mod laws;
pub mod model;
pub mod rooms;
pub mod schema;
pub mod sender;
pub mod state;
pub mod terrain_model;
