//! Spotify Web API client logic: request building, response decoding,
//! the local album library and the shared data store of the player.

pub mod data_manager;
pub mod text;
pub mod objects;
pub mod json;
pub mod encoding;
pub mod command;
pub mod model;
pub mod apis;
pub mod library;
pub mod interface;
pub mod client;
pub mod token_retrieval;
