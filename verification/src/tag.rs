//! The operations that every tag format offers, whatever its container.

use crate::comments::texts;
use crate::date::{date_day, date_month, date_year};
use crate::field::Field;
use crate::sidecar::CoverFile;
use vstd::prelude::*;

verus! {

/// Why a file could not be rewritten.
#[derive(Clone, Copy, Debug, PartialEq, Eq, Structural)]
pub enum SaveError {
    /// The file's bytes are no stream that can be read to its end, or the
    /// tag cannot be encoded.
    Stream,
    /// The new bytes do not hold the tag: reading them back gives another
    /// tag, or saving over them would change them again.
    Unfaithful,
}

/// A tag of one file, to be changed in memory and then saved. The view of
/// an adapter is what its format stores.
pub trait Tag: View + Sized {
    /// The key under which this format stores a field.
    spec fn native_key(field: Field) -> Seq<char>;

    /// What this format stores after `key` has been given `values`.
    spec fn with_values(tag: Self::V, key: Seq<char>, values: Seq<Seq<char>>) -> Self::V;

    /// What this format stores after the separator has been set.
    spec fn with_separator(tag: Self::V, separator: Seq<char>) -> Self::V;

    /// What this format stores after the release date has been set.
    spec fn with_date(tag: Self::V, year: int, month: nat, day: nat) -> Self::V;

    /// What this format stores after a picture has been attached.
    spec fn with_cover(tag: Self::V, mime: Seq<char>, data: Seq<u8>) -> Self::V;

    /// The file that holds the picture where the format cannot: its path
    /// and its bytes, or nothing where no file is to be written.
    spec fn cover_file(tag: Self::V, mime: Seq<char>, data: Seq<u8>) -> Option<
        (Seq<char>, Seq<u8>),
    >;

    /// What saving yields for a file with the given bytes: the bytes of the
    /// new file, or why there are none.
    spec fn saved_as(tag: Self::V, contents: Seq<u8>) -> Result<Seq<u8>, SaveError>;

    /// Sets the text that joins several values of one field, for formats
    /// that cannot repeat a key.
    fn set_separator(&mut self, separator: &str)
        ensures
            final(self)@ == Self::with_separator(old(self)@, separator@),
    ;

    /// Stores `value` under the format's key of `field`: the same as
    /// `set_raw` with that key.
    fn set_field(&mut self, field: Field, value: Vec<String>)
        ensures
            final(self)@ == Self::with_values(old(self)@, Self::native_key(field), texts(value@)),
    ;

    /// Attaches a picture. A format that cannot embed it hands back the
    /// file to write instead, with the picture's bytes as they came.
    fn add_cover(&mut self, mime: &str, data: Vec<u8>) -> (file: Option<CoverFile>)
        ensures
            final(self)@ == Self::with_cover(old(self)@, mime@, data@),
            file is Some <==> Self::cover_file(old(self)@, mime@, data@) is Some,
            file matches Some(f) ==> Self::cover_file(old(self)@, mime@, data@) == Some(
                (f.path@, f.data@),
            ) && f.data@ == data@,
    ;

    /// Stores `value` under `tag`, a key of the format itself.
    fn set_raw(&mut self, tag: &str, value: Vec<String>)
        ensures
            final(self)@ == Self::with_values(old(self)@, tag@, texts(value@)),
    ;

    /// The bytes of the file with this tag in it, made from the file's
    /// present bytes. The tag stays as it is.
    fn save(&mut self, contents: &[u8]) -> (out: Result<Vec<u8>, SaveError>)
        ensures
            final(self)@ == old(self)@,
            out is Ok <==> Self::saved_as(old(self)@, contents@) is Ok,
            out matches Ok(bytes) ==> Self::saved_as(old(self)@, contents@) == Ok::<
                Seq<u8>,
                SaveError,
            >(bytes@),
            out matches Err(e) ==> Self::saved_as(old(self)@, contents@) == Err::<
                Seq<u8>,
                SaveError,
            >(e),
    ;

    /// Stores the release date in the format's own way.
    fn set_release_date(&mut self, date: chrono::NaiveDate)
        ensures
            final(self)@ == Self::with_date(
                old(self)@,
                date_year(date),
                date_month(date),
                date_day(date),
            ),
    ;
}

} // verus!
