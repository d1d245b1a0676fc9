//! A first, plain data model of tracks, albums, artists and playlists.

#![allow(non_camel_case_types)]

use vstd::prelude::*;
use crate::model::image::Image;

verus! {

/// A Spotify track: its name, its Spotify ID and its artist.
pub struct Track {
    pub name: String,
    pub id: String,
    pub artist: Option<Artist>,
}

/// A full album: its kind, artists, markets, genres, link, Spotify ID,
/// images, label, name, popularity and release date.
#[derive(Debug, Clone)]
pub struct Album_full {
    pub album_type: String,
    pub artists: Vec<Artist_simp>,
    pub available_markets: Vec<String>,
    pub genres: Vec<String>,
    pub href: String,
    pub id: String,
    pub images: Vec<Image>,
    pub label: String,
    pub name: String,
    pub popularity: u8,
    pub release_date: String,
    pub release_date_precision: String,
}

/// A full artist: genres, link, Spotify ID, images, name, popularity, kind
/// and URI.
#[derive(Debug, Clone)]
pub struct Artist_full {
    pub genres: Vec<String>,
    pub href: String,
    pub id: String,
    pub images: Vec<Image>,
    pub name: String,
    pub popularity: u8,
    pub _type: String,
    pub uri: String,
}

/// A simplified artist: link, Spotify ID, name, kind and URI.
#[derive(Debug, Clone)]
pub struct Artist_simp {
    pub href: String,
    pub id: String,
    pub name: String,
    pub _type: String,
    pub uri: String,
}

/// A simplified album: its kind, artists, name, Spotify ID and, when
/// known, its tracks.
pub struct Album_simp {
    pub album_type: String,
    pub artists: Vec<Artist>,
    pub name: String,
    pub id: String,
    pub tracks: Option<Vec<Track>>,
}

/// An artist: its name, Spotify ID and, when known, its albums.
pub struct Artist {
    pub name: String,
    pub id: String,
    pub albums: Option<Vec<Album_simp>>,
}

/// A playlist: its name, Spotify ID and, when known, its tracks.
pub struct Playlist {
    pub name: String,
    pub id: String,
    pub tracks: Option<Vec<Track>>,
}

} // verus!
