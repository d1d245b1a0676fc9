//! The enumerations of the Spotify object model, which the API writes as
//! snake-case strings.

use vstd::prelude::*;
use crate::json::{or_null, JsonSpec, JsonValue};
use crate::text::str_eq;

verus! {

/// The kind of a Spotify object.
#[derive(Clone, Copy, Debug, PartialEq, Eq, Structural)]
pub enum Type {
    Artist,
    Album,
    Track,
    Playlist,
    User,
    Show,
    Episode,
}

/// The kind of an album.
#[derive(Clone, Copy, Debug, PartialEq, Eq, Structural)]
pub enum AlbumType {
    Album,
    Single,
    AppearsOn,
    Compilation,
}

/// How the API writes a kind of object.
pub open spec fn object_kind_name(t: Type) -> Seq<char> {
    match t {
        Type::Artist => "artist"@,
        Type::Album => "album"@,
        Type::Track => "track"@,
        Type::Playlist => "playlist"@,
        Type::User => "user"@,
        Type::Show => "show"@,
        Type::Episode => "episode"@,
    }
}

/// How the API writes a kind of album.
pub open spec fn album_type_name(t: AlbumType) -> Seq<char> {
    match t {
        AlbumType::Album => "album"@,
        AlbumType::Single => "single"@,
        AlbumType::AppearsOn => "appears_on"@,
        AlbumType::Compilation => "compilation"@,
    }
}

/// The kind of object a JSON value names, if it names one.
pub open spec fn dec_type(j: JsonSpec) -> Option<Type> {
    match j {
        JsonSpec::String(s) => if s == "artist"@ {
            Some(Type::Artist)
        } else if s == "album"@ {
            Some(Type::Album)
        } else if s == "track"@ {
            Some(Type::Track)
        } else if s == "playlist"@ {
            Some(Type::Playlist)
        } else if s == "user"@ {
            Some(Type::User)
        } else if s == "show"@ {
            Some(Type::Show)
        } else if s == "episode"@ {
            Some(Type::Episode)
        } else {
            None
        },
        _ => None,
    }
}

/// The kind of album a JSON value names, if it names one.
pub open spec fn dec_album_type(j: JsonSpec) -> Option<AlbumType> {
    match j {
        JsonSpec::String(s) => if s == "album"@ {
            Some(AlbumType::Album)
        } else if s == "single"@ {
            Some(AlbumType::Single)
        } else if s == "appears_on"@ {
            Some(AlbumType::AppearsOn)
        } else if s == "compilation"@ {
            Some(AlbumType::Compilation)
        } else {
            None
        },
        _ => None,
    }
}

/// Reads the kind of an object.
pub fn type_of(v: Option<&JsonValue>) -> (r: Option<Type>)
    ensures
        r == dec_type(or_null(v)),
{
    let s = match v {
        Some(JsonValue::String(s)) => s.as_str(),
        _ => return None,
    };
    if str_eq(s, "artist") {
        Some(Type::Artist)
    } else if str_eq(s, "album") {
        Some(Type::Album)
    } else if str_eq(s, "track") {
        Some(Type::Track)
    } else if str_eq(s, "playlist") {
        Some(Type::Playlist)
    } else if str_eq(s, "user") {
        Some(Type::User)
    } else if str_eq(s, "show") {
        Some(Type::Show)
    } else if str_eq(s, "episode") {
        Some(Type::Episode)
    } else {
        None
    }
}

/// Reads the kind of an album.
pub fn album_type_of(v: Option<&JsonValue>) -> (r: Option<AlbumType>)
    ensures
        r == dec_album_type(or_null(v)),
{
    let s = match v {
        Some(JsonValue::String(s)) => s.as_str(),
        _ => return None,
    };
    if str_eq(s, "album") {
        Some(AlbumType::Album)
    } else if str_eq(s, "single") {
        Some(AlbumType::Single)
    } else if str_eq(s, "appears_on") {
        Some(AlbumType::AppearsOn)
    } else if str_eq(s, "compilation") {
        Some(AlbumType::Compilation)
    } else {
        None
    }
}

impl AlbumType {
    /// The name the API writes for the kind of album.
    pub fn as_str(&self) -> (r: &'static str)
        ensures
            r@ == album_type_name(*self),
    {
        match self {
            AlbumType::Album => "album",
            AlbumType::Single => "single",
            AlbumType::AppearsOn => "appears_on",
            AlbumType::Compilation => "compilation",
        }
    }
}

impl Type {
    /// The name the API writes for the kind of object.
    pub fn as_str(&self) -> (r: &'static str)
        ensures
            r@ == object_kind_name(*self),
    {
        match self {
            Type::Artist => "artist",
            Type::Album => "album",
            Type::Track => "track",
            Type::Playlist => "playlist",
            Type::User => "user",
            Type::Show => "show",
            Type::Episode => "episode",
        }
    }
}

} // verus!
