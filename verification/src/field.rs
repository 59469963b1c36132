//! The closed set of semantic metadata fields and their Vorbis-comment names.

use vstd::prelude::*;

verus! {

/// A semantic metadata field that every tag format knows how to write.
#[derive(Clone, Copy, Debug, PartialEq, Eq, Structural)]
pub enum Field {
    Title,
    Artist,
    Album,
    TrackNumber,
    DiscNumber,
    Genre,
    Label,
    AlbumArtist,
}

/// The Vorbis-comment key under which a field is stored.
pub open spec fn vorbis_key(field: Field) -> Seq<char> {
    match field {
        Field::Title => "TITLE"@,
        Field::Artist => "ARTIST"@,
        Field::Album => "ALBUM"@,
        Field::TrackNumber => "TRACKNUMBER"@,
        Field::DiscNumber => "DISCNUMBER"@,
        Field::Genre => "GENRE"@,
        Field::Label => "LABEL"@,
        Field::AlbumArtist => "ALBUMARTIST"@,
    }
}

impl Field {
    /// The Vorbis-comment key of this field, as text.
    pub fn vorbis_name(self) -> (name: &'static str)
        ensures
            name@ == vorbis_key(self),
    {
        match self {
            Field::Title => "TITLE",
            Field::Artist => "ARTIST",
            Field::Album => "ALBUM",
            Field::TrackNumber => "TRACKNUMBER",
            Field::DiscNumber => "DISCNUMBER",
            Field::Genre => "GENRE",
            Field::Label => "LABEL",
            Field::AlbumArtist => "ALBUMARTIST",
        }
    }
}

} // verus!
