//! The objects of the Spotify Web API, and how the client reads them from
//! the JSON the API sends.

pub mod fields;
pub mod clone;
pub mod senum;
pub mod image;
pub mod artist;
pub mod track;
pub mod page;
pub mod album;
pub mod playlist;
pub mod context;
