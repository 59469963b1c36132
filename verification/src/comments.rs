//! The comment header of a Vorbis stream: its model, the operations of the
//! codec library on it, and the facts that follow from them.

use oggvorbismeta::VorbisComments;
use vstd::prelude::*;

verus! {

/// `oggvorbismeta::CommentHeader`: a vendor string and a list of key-value
/// comments. Opaque here; `header_vendor` and `header_entries` name what it holds.
#[verifier::external_type_specification]
#[verifier::external_body]
pub struct ExCommentHeader(oggvorbismeta::CommentHeader);

/// The comments that a header holds (its `comment_list`), in order, each as a
/// pair of key and value.
pub uninterp spec fn header_entries(header: oggvorbismeta::CommentHeader) -> Seq<(Seq<char>, Seq<char>)>;

/// The vendor string that a header holds (its `vendor`).
pub uninterp spec fn header_vendor(header: oggvorbismeta::CommentHeader) -> Seq<char>;

/// What `str::to_lowercase` returns for a text.
pub uninterp spec fn lowercase(text: Seq<char>) -> Seq<char>;

/// What `oggvorbismeta::read_comment_header` finds in the bytes of a file:
/// the vendor and the comments, or nothing where it reports an error.
pub uninterp spec fn parsed_header(data: Seq<u8>) -> Option<(Seq<char>, Seq<(Seq<char>, Seq<char>)>)>;

/// What `oggvorbismeta::replace_comment_header` makes of the bytes of a file
/// and a header with the given vendor and comments: the bytes of the new
/// file, or nothing where it reports an error.
pub uninterp spec fn rewritten_stream(
    data: Seq<u8>,
    vendor: Seq<char>,
    entries: Seq<(Seq<char>, Seq<char>)>,
) -> Option<Seq<u8>>;

/// The texts of a sequence of strings.
pub open spec fn texts(values: Seq<String>) -> Seq<Seq<char>> {
    values.map_values(|value: String| value@)
}

/// The texts of a sequence of pairs of strings.
pub open spec fn pair_texts(pairs: Seq<(String, String)>) -> Seq<(Seq<char>, Seq<char>)> {
    pairs.map_values(|pair: (String, String)| (pair.0@, pair.1@))
}

/// Two keys name the same comment: keys are compared without regard to case.
pub open spec fn same_key(a: Seq<char>, b: Seq<char>) -> bool {
    lowercase(a) == lowercase(b)
}

/// The comments of `entries` whose key is not `key`, in their order.
pub open spec fn without_key(entries: Seq<(Seq<char>, Seq<char>)>, key: Seq<char>) -> Seq<
    (Seq<char>, Seq<char>),
>
    decreases entries.len(),
{
    if entries.len() == 0 {
        Seq::empty()
    } else if same_key(entries.last().0, key) {
        without_key(entries.drop_last(), key)
    } else {
        without_key(entries.drop_last(), key).push(entries.last())
    }
}

/// The values of the comments of `entries` whose key is `key`, in their order.
pub open spec fn values_of(entries: Seq<(Seq<char>, Seq<char>)>, key: Seq<char>) -> Seq<Seq<char>>
    decreases entries.len(),
{
    if entries.len() == 0 {
        Seq::empty()
    } else if same_key(entries.last().0, key) {
        values_of(entries.drop_last(), key).push(entries.last().1)
    } else {
        values_of(entries.drop_last(), key)
    }
}

/// One comment per value, each under the lower-case form of `key`.
pub open spec fn entries_for(key: Seq<char>, values: Seq<Seq<char>>) -> Seq<(Seq<char>, Seq<char>)> {
    Seq::new(values.len(), |i: int| (lowercase(key), values[i]))
}

/// The comments after `key` has been given `values`: what was stored under
/// `key` is gone, and the new values stand at the end, in their order.
pub open spec fn with_key(
    entries: Seq<(Seq<char>, Seq<char>)>,
    key: Seq<char>,
    values: Seq<Seq<char>>,
) -> Seq<(Seq<char>, Seq<char>)> {
    without_key(entries, key) + entries_for(key, values)
}

/// A key that its lower-case form names: lowering the case a second time
/// changes nothing.
pub open spec fn key_is_settled(key: Seq<char>) -> bool {
    lowercase(lowercase(key)) == lowercase(key)
}

/// `str::to_lowercase`: the lower-case form of a text.
#[verifier::external_body]
pub(crate) fn to_lowercase(text: &str) -> (lowered: String)
    ensures
        lowered@ == lowercase(text@),
{
    text.to_lowercase()
}

/// The form in which a header stores `key`: its lower-case form.
pub fn stored_key(key: &str) -> (stored: String)
    ensures
        stored@ == lowercase(key@),
{
    to_lowercase(key)
}

/// Tells whether the lower-case form of `key` is its own lower-case form, so
/// that a comment stored under `key` is found again under `key`.
pub fn key_settles(key: &str) -> (settled: bool)
    ensures
        settled == key_is_settled(key@),
{
    let once = stored_key(key);
    let twice = stored_key(once.as_str());
    once == twice
}

/// `VorbisComments::new`: a header with an empty vendor and no comments.
#[verifier::external_body]
pub(crate) fn empty_header() -> (header: oggvorbismeta::CommentHeader)
    ensures
        header_vendor(header) == Seq::<char>::empty(),
        header_entries(header) == Seq::<(Seq<char>, Seq<char>)>::empty(),
{
    <oggvorbismeta::CommentHeader as VorbisComments>::new()
}

/// `VorbisComments::clear_tag`: keeps the comments whose lower-cased key
/// differs from the lower-cased `key`, in order, and leaves the vendor alone.
#[verifier::external_body]
pub(crate) fn clear_tag(header: &mut oggvorbismeta::CommentHeader, key: &str)
    ensures
        header_entries(*final(header)) == without_key(header_entries(*old(header)), key@),
        header_vendor(*final(header)) == header_vendor(*old(header)),
{
    header.clear_tag(key)
}

/// `VorbisComments::add_tag_multi`: appends one comment per value, in order,
/// each under the lower-cased `key`, and leaves the vendor alone.
#[verifier::external_body]
pub(crate) fn add_tag_multi(header: &mut oggvorbismeta::CommentHeader, key: &str, values: &Vec<String>)
    ensures
        header_entries(*final(header)) == header_entries(*old(header)) + entries_for(
            key@,
            texts(values@),
        ),
        header_vendor(*final(header)) == header_vendor(*old(header)),
{
    header.add_tag_multi(key, values.as_slice())
}

/// `VorbisComments::get_tag_multi`: the values of the comments whose
/// lower-cased key equals the lower-cased `key`, in order.
#[verifier::external_body]
pub(crate) fn get_tag_multi(header: &oggvorbismeta::CommentHeader, key: &str) -> (values: Vec<String>)
    ensures
        texts(values@) == values_of(header_entries(*header), key@),
{
    header.get_tag_multi(key)
}

/// A copy of the public field `comment_list` of a header: its comments, in
/// order.
#[verifier::external_body]
pub(crate) fn comment_list(header: &oggvorbismeta::CommentHeader) -> (pairs: Vec<(String, String)>)
    ensures
        pair_texts(pairs@) == header_entries(*header),
{
    header.comment_list.clone()
}

/// `==` on two headers, which `CommentHeader` derives: true exactly where
/// both the vendors and the lists of comments are equal.
#[verifier::external_body]
pub(crate) fn same_header(a: &oggvorbismeta::CommentHeader, b: &oggvorbismeta::CommentHeader) -> (same:
    bool)
    ensures
        same == (header_vendor(*a) == header_vendor(*b) && header_entries(*a) == header_entries(
            *b,
        )),
{
    a == b
}

/// `oggvorbismeta::read_comment_header` on the bytes of a file: the header
/// that it finds, or nothing where it reports an error.
#[verifier::external_body]
pub(crate) fn read_header(data: &[u8]) -> (found: Option<oggvorbismeta::CommentHeader>)
    ensures
        found is Some <==> parsed_header(data@) is Some,
        found matches Some(header) ==> parsed_header(data@) == Some(
            (header_vendor(header), header_entries(header)),
        ),
{
    oggvorbismeta::read_comment_header(std::io::Cursor::new(data)).ok()
}

/// `oggvorbismeta::replace_comment_header` on the bytes of a file: the bytes
/// of the file with `header` in place of its comment header, or nothing where
/// it reports an error.
#[verifier::external_body]
pub(crate) fn replace_header(data: &[u8], header: &oggvorbismeta::CommentHeader) -> (out: Option<
    Vec<u8>,
>)
    ensures
        out is Some <==> rewritten_stream(
            data@,
            header_vendor(*header),
            header_entries(*header),
        ) is Some,
        out matches Some(bytes) ==> rewritten_stream(
            data@,
            header_vendor(*header),
            header_entries(*header),
        ) == Some(bytes@),
{
    oggvorbismeta::replace_comment_header(std::io::Cursor::new(data), header).ok().map(
        |stream| stream.into_inner(),
    )
}

} // verus!
