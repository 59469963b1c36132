//! The Vorbis-comment adapter: one Ogg file's comment header, to be changed
//! in memory and written back.

use crate::comments::{
    add_tag_multi, clear_tag, comment_list, empty_header, get_tag_multi, header_entries,
    header_vendor, key_is_settled, key_settles, pair_texts, parsed_header, read_header,
    replace_header, rewritten_stream, same_header, texts, values_of, with_key,
};
use crate::date::{
    date_day, date_month, date_text, date_year, day_of, format_date, month_of, year_of,
};
use crate::field::{vorbis_key, Field};
use crate::laws::key_holds_what_was_set;
use crate::sidecar::{cover_beside, path_parent, plan_cover, CoverFile};
use crate::tag::{SaveError, Tag};
use vstd::prelude::*;

verus! {

/// What an adapter stands for: the path of its file and the vendor and
/// comments of its header.
pub struct TagView {
    pub path: Seq<char>,
    pub vendor: Seq<char>,
    pub entries: Seq<(Seq<char>, Seq<char>)>,
}

/// The Vorbis-comment key of the release date.
pub open spec fn date_key() -> Seq<char> {
    "DATE"@
}

/// The adapter that `open` makes of a path and the bytes of the file there:
/// the header found in the bytes, or an empty one where none can be read.
pub open spec fn opened(path: Seq<char>, contents: Seq<u8>) -> TagView {
    match parsed_header(contents) {
        Some((vendor, entries)) => TagView { path, vendor, entries },
        None => TagView { path, vendor: Seq::empty(), entries: Seq::empty() },
    }
}

/// `tag` after `key` has been given `values`.
pub open spec fn keyed(tag: TagView, key: Seq<char>, values: Seq<Seq<char>>) -> TagView {
    TagView { entries: with_key(tag.entries, key, values), ..tag }
}

/// `tag` after its release date has been set.
pub open spec fn dated(tag: TagView, year: int, month: nat, day: nat) -> TagView {
    keyed(tag, date_key(), seq![date_text(year, month, day)])
}

/// What saving `tag` over a file with the given bytes yields: the bytes of
/// the new file.
pub open spec fn saved(tag: TagView, contents: Seq<u8>) -> Result<Seq<u8>, SaveError> {
    match rewritten_stream(contents, tag.vendor, tag.entries) {
        Some(bytes) => Ok(bytes),
        None => Err(SaveError::Stream),
    }
}

/// What a checked save of `tag` over a file with the given bytes yields:
/// the bytes that `saved` gives, where they read back as `tag` and saving
/// over them gives the same bytes again.
pub open spec fn saved_faithfully(tag: TagView, contents: Seq<u8>) -> Result<Seq<u8>, SaveError> {
    match rewritten_stream(contents, tag.vendor, tag.entries) {
        None => Err(SaveError::Stream),
        Some(bytes) => if parsed_header(bytes) == Some((tag.vendor, tag.entries))
            && rewritten_stream(bytes, tag.vendor, tag.entries) == Some(bytes) {
            Ok(bytes)
        } else {
            Err(SaveError::Unfaithful)
        },
    }
}

/// Tells whether two slices hold the same bytes.
pub fn same_bytes(a: &[u8], b: &[u8]) -> (same: bool)
    ensures
        same == (a@ == b@),
{
    if a.len() != b.len() {
        return false;
    }
    let mut i: usize = 0;
    while i < a.len()
        invariant
            a.len() == b.len(),
            i <= a.len(),
            forall|j: int| 0 <= j < i ==> a@[j] == b@[j],
        decreases a.len() - i,
    {
        if a[i] != b[i] {
            return false;
        }
        i += 1;
    }
    assert(a@ =~= b@);
    true
}

/// A Vorbis-comment header bound to the path of its file.
pub struct OggTag {
    path: String,
    tag: oggvorbismeta::CommentHeader,
}

impl View for OggTag {
    type V = TagView;

    closed spec fn view(&self) -> TagView {
        TagView {
            path: self.path@,
            vendor: header_vendor(self.tag),
            entries: header_entries(self.tag),
        }
    }
}

impl OggTag {
    /// Loads the tag of the file at `path` from the file's bytes. Bytes
    /// without a readable comment header give an empty tag.
    pub fn open(path: &str, contents: &[u8]) -> (tag: OggTag)
        ensures
            tag@ == opened(path@, contents@),
            parsed_header(contents@) is None ==> tag@.entries.len() == 0,
    {
        let tag = match read_header(contents) {
            Some(header) => header,
            None => empty_header(),
        };
        OggTag { path: path.to_owned(), tag }
    }

    /// The values stored under `tag`, in their order.
    pub fn get_raw(&self, tag: &str) -> (value: Vec<String>)
        ensures
            texts(value@) == values_of(self@.entries, tag@),
    {
        get_tag_multi(&self.tag, tag)
    }

    /// All comments of the tag as pairs of key and value, in their order.
    pub fn entries(&self) -> (pairs: Vec<(String, String)>)
        ensures
            pair_texts(pairs@) == self@.entries,
    {
        comment_list(&self.tag)
    }

    /// The path of the file that the tag belongs to.
    pub fn path(&self) -> (path: &str)
        ensures
            path@ == self@.path,
    {
        self.path.as_str()
    }

    /// Stores `value` under `tag` as `set_raw` does, and tells whether the
    /// key is settled. Where it is, `tag` then holds exactly `value`,
    /// whatever the tag held before.
    pub fn set_raw_checked(&mut self, tag: &str, value: Vec<String>) -> (settled: bool)
        ensures
            final(self)@ == keyed(old(self)@, tag@, texts(value@)),
            settled == key_is_settled(tag@),
            settled ==> values_of(final(self)@.entries, tag@) == texts(value@),
    {
        let settled = key_settles(tag);
        proof {
            if settled {
                key_holds_what_was_set(self@.entries, tag@, texts(value@));
            }
        }
        self.set_raw(tag, value);
        settled
    }

    /// Saves as `save` does, then reads the new bytes back and saves over
    /// them once more: the bytes are handed out only where they hold this
    /// tag and a second save leaves them as they are.
    pub fn save_checked(&mut self, contents: &[u8]) -> (out: Result<Vec<u8>, SaveError>)
        ensures
            final(self)@ == old(self)@,
            out is Ok <==> saved_faithfully(old(self)@, contents@) is Ok,
            out matches Ok(bytes) ==> saved_faithfully(old(self)@, contents@) == Ok::<
                Seq<u8>,
                SaveError,
            >(bytes@),
            out matches Err(e) ==> saved_faithfully(old(self)@, contents@) == Err::<
                Seq<u8>,
                SaveError,
            >(e),
    {
        match replace_header(contents, &self.tag) {
            None => Err(SaveError::Stream),
            Some(bytes) => {
                let reads_back = match read_header(bytes.as_slice()) {
                    Some(header) => same_header(&header, &self.tag),
                    None => false,
                };
                let stays = match replace_header(bytes.as_slice(), &self.tag) {
                    Some(again) => same_bytes(again.as_slice(), bytes.as_slice()),
                    None => false,
                };
                if reads_back && stays {
                    Ok(bytes)
                } else {
                    Err(SaveError::Unfaithful)
                }
            },
        }
    }

    /// Stores a release date given by its parts under `DATE`, in place of
    /// what was there.
    pub fn set_date_parts(&mut self, year: i32, month: u32, day: u32)
        ensures
            final(self)@ == dated(old(self)@, year as int, month as nat, day as nat),
    {
        let text = format_date(year, month, day);
        let mut value: Vec<String> = Vec::new();
        value.push(text);
        proof {
            assert(texts(value@) =~= seq![date_text(year as int, month as nat, day as nat)]);
        }
        self.set_raw("DATE", value);
    }
}

impl Tag for OggTag {
    open spec fn native_key(field: Field) -> Seq<char> {
        vorbis_key(field)
    }

    open spec fn with_values(tag: TagView, key: Seq<char>, values: Seq<Seq<char>>) -> TagView {
        keyed(tag, key, values)
    }

    open spec fn with_separator(tag: TagView, separator: Seq<char>) -> TagView {
        tag
    }

    open spec fn with_cover(tag: TagView, mime: Seq<char>, data: Seq<u8>) -> TagView {
        tag
    }

    open spec fn cover_file(tag: TagView, mime: Seq<char>, data: Seq<u8>) -> Option<
        (Seq<char>, Seq<u8>),
    > {
        cover_beside(tag.path, data)
    }

    open spec fn with_date(tag: TagView, year: int, month: nat, day: nat) -> TagView {
        dated(tag, year, month, day)
    }

    open spec fn saved_as(tag: TagView, contents: Seq<u8>) -> Result<Seq<u8>, SaveError> {
        saved(tag, contents)
    }

    /// Vorbis comments repeat a key for each value, so no separator is needed:
    /// nothing changes.
    fn set_separator(&mut self, _separator: &str)
        ensures
            final(self)@ == old(self)@,
    {
    }

    /// Stores `value` under the Vorbis-comment key of `field`, in place of
    /// what was there.
    fn set_field(&mut self, field: Field, value: Vec<String>)
        ensures
            final(self)@ == keyed(old(self)@, vorbis_key(field), texts(value@)),
    {
        let name = field.vorbis_name();
        self.set_raw(name, value);
    }

    /// Vorbis comments cannot hold a picture. The tag stays as it is, and the
    /// picture is handed back for a file `cover.jpg` beside the tagged file,
    /// or dropped where the path has no directory above it.
    fn add_cover(&mut self, _mime: &str, data: Vec<u8>) -> (file: Option<CoverFile>)
        ensures
            final(self)@ == old(self)@,
            cover_beside(old(self)@.path, data@) matches Some(target) ==> file matches Some(f)
                && f.path@ == target.0 && f.data@ == target.1,
            cover_beside(old(self)@.path, data@) is None ==> file is None,
    {
        let dir = path_parent(self.path.as_str());
        plan_cover(dir, data)
    }

    /// Stores `value` under `tag`, one comment per text and in their order,
    /// in place of every comment that `tag` named before.
    fn set_raw(&mut self, tag: &str, value: Vec<String>)
        ensures
            final(self)@ == keyed(old(self)@, tag@, texts(value@)),
    {
        clear_tag(&mut self.tag, tag);
        add_tag_multi(&mut self.tag, tag, &value);
    }

    /// The bytes of the file with this tag in place of its comment header,
    /// made from the file's present bytes. The tag stays as it is.
    fn save(&mut self, contents: &[u8]) -> (out: Result<Vec<u8>, SaveError>)
        ensures
            final(self)@ == old(self)@,
            out is Ok <==> saved(old(self)@, contents@) is Ok,
            out matches Ok(bytes) ==> saved(old(self)@, contents@) == Ok::<Seq<u8>, SaveError>(
                bytes@,
            ),
            out matches Err(e) ==> saved(old(self)@, contents@) == Err::<Seq<u8>, SaveError>(e),
    {
        match replace_header(contents, &self.tag) {
            Some(bytes) => Ok(bytes),
            None => Err(SaveError::Stream),
        }
    }

    /// Stores the date under `DATE` as text, in place of what was there.
    fn set_release_date(&mut self, date: chrono::NaiveDate)
        ensures
            final(self)@ == dated(old(self)@, date_year(date), date_month(date), date_day(date)),
    {
        let year = year_of(&date);
        let month = month_of(&date);
        let day = day_of(&date);
        self.set_date_parts(year, month, day);
    }
}

} // verus!
