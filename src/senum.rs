//! Catalog resource types, used to validate identifiers.
use vstd::prelude::*;

verus! {

/// Kind of catalog entity an identifier refers to.
#[derive(Clone, Copy, Debug, PartialEq, Eq, Structural)]
pub enum Type {
    Artist,
    Album,
    Track,
    Playlist,
    User,
    Show,
    Episode,
}

/// The canonical lowercase name of a resource type, as it appears in URIs.
pub open spec fn kind_name(t: Type) -> Seq<char> {
    match t {
        Type::Artist => "artist"@,
        Type::Album => "album"@,
        Type::Track => "track"@,
        Type::Playlist => "playlist"@,
        Type::User => "user"@,
        Type::Show => "show"@,
        Type::Episode => "episode"@,
    }
}

impl Type {
    /// The canonical name of this type, as used in `spotify:<type>:<id>` URIs.
    pub fn as_str(&self) -> (r: &'static str)
        ensures
            r@ == kind_name(*self),
    {
        match self {
            Type::Artist => "artist",
            Type::Album => "album",
            Type::Track => "track",
            Type::Playlist => "playlist",
            Type::User => "user",
            Type::Show => "show",
            Type::Episode => "episode",
        }
    }
}

} // verus!
