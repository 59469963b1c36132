use chrono::NaiveDate;
use ogg::writing::PacketWriteEndInfo;
use ogg::PacketWriter;
use ogg_tag::comments::{key_settles, stored_key};
use ogg_tag::date::format_date;
use ogg_tag::field::Field;
use ogg_tag::ogg::{same_bytes, OggTag};
use ogg_tag::tag::{SaveError, Tag};
use oggvorbismeta::{make_comment_header, CommentHeader, VorbisComments};
use std::io::Cursor;

fn texts(values: &[&str]) -> Vec<String> {
    values.iter().map(|v| v.to_string()).collect()
}

fn pair(key: &str, value: &str) -> (String, String) {
    (key.to_string(), value.to_string())
}

/// An Ogg stream of three packets: a first header, a comment header with the
/// given vendor and comments, and a packet of payload.
fn stream_with(vendor: &str, comments: &[(&str, &str)]) -> Vec<u8> {
    let list = comments.iter().map(|(k, v)| pair(k, v)).collect();
    let header = <CommentHeader as VorbisComments>::from(vendor.to_string(), list);
    let comment_packet = make_comment_header(&header).unwrap();
    let first_packet: Vec<u8> = vec![1, 118, 111, 114, 98, 105, 115, 0, 0, 0, 0, 2];
    let payload: Vec<u8> = vec![10, 20, 30, 40, 50, 60, 70, 80];
    let mut out = Cursor::new(Vec::new());
    {
        let mut writer = PacketWriter::new(&mut out);
        writer
            .write_packet(first_packet.into_boxed_slice(), 7, PacketWriteEndInfo::EndPage, 0)
            .unwrap();
        writer
            .write_packet(comment_packet.into_boxed_slice(), 7, PacketWriteEndInfo::EndPage, 0)
            .unwrap();
        writer
            .write_packet(payload.into_boxed_slice(), 7, PacketWriteEndInfo::EndStream, 8)
            .unwrap();
    }
    out.into_inner()
}

fn all_fields() -> Vec<(Field, &'static str)> {
    vec![
        (Field::Title, "TITLE"),
        (Field::Artist, "ARTIST"),
        (Field::Album, "ALBUM"),
        (Field::TrackNumber, "TRACKNUMBER"),
        (Field::DiscNumber, "DISCNUMBER"),
        (Field::Genre, "GENRE"),
        (Field::Label, "LABEL"),
        (Field::AlbumArtist, "ALBUMARTIST"),
    ]
}

#[test]
fn field_names_follow_the_table() {
    for (field, name) in all_fields() {
        assert_eq!(field.vorbis_name(), name);
    }
}

#[test]
fn keys_are_stored_in_lower_case() {
    assert_eq!(stored_key("TITLE"), "title");
    assert_eq!(stored_key("AlbumArtist"), "albumartist");
    assert_eq!(stored_key("date"), "date");
    for (field, name) in all_fields() {
        let mut tag = OggTag::open("a.ogg", &[]);
        tag.set_field(field, texts(&["v"]));
        assert_eq!(tag.entries(), vec![(stored_key(name), "v".to_string())]);
    }
}

#[test]
fn field_keys_are_settled() {
    for (_, name) in all_fields() {
        assert!(key_settles(name));
    }
    assert!(key_settles("DATE"));
    assert!(key_settles("Some Key"));
}

#[test]
fn open_reads_existing_comments() {
    let data = stream_with("enc", &[("artist", "Some Guy"), ("album", "Greatest Hits")]);
    let tag = OggTag::open("music/a.ogg", &data);
    assert_eq!(tag.path(), "music/a.ogg");
    assert_eq!(
        tag.entries(),
        vec![pair("artist", "Some Guy"), pair("album", "Greatest Hits")]
    );
    assert_eq!(tag.get_raw("ARTIST"), texts(&["Some Guy"]));
    assert_eq!(tag.get_raw("title"), Vec::<String>::new());
}

#[test]
fn open_without_tag_block_is_empty() {
    let tag = OggTag::open("a.ogg", b"this is no ogg stream at all");
    assert_eq!(tag.entries().len(), 0);
    let tag = OggTag::open("a.ogg", &[]);
    assert_eq!(tag.entries().len(), 0);
}

#[test]
fn open_with_broken_comment_header_is_empty() {
    let first: Vec<u8> = vec![1, 2, 3];
    let broken: Vec<u8> = vec![3, 118, 111, 114, 98, 105, 115, 255, 255];
    let mut out = Cursor::new(Vec::new());
    {
        let mut writer = PacketWriter::new(&mut out);
        writer
            .write_packet(first.into_boxed_slice(), 1, PacketWriteEndInfo::EndPage, 0)
            .unwrap();
        writer
            .write_packet(broken.into_boxed_slice(), 1, PacketWriteEndInfo::EndStream, 0)
            .unwrap();
    }
    let data = out.into_inner();
    let mut tag = OggTag::open("a.ogg", &data);
    assert_eq!(tag.entries().len(), 0);
    tag.set_raw("TITLE", texts(&["t"]));
    assert_eq!(tag.get_raw("TITLE"), texts(&["t"]));
}

#[test]
fn set_field_survives_save_and_open() {
    let data = stream_with("enc", &[("comment", "kept")]);
    for (field, name) in all_fields() {
        let values = texts(&["first", "second", "third"]);
        let mut tag = OggTag::open("a.ogg", &data);
        tag.set_field(field, values.clone());
        assert_eq!(tag.get_raw(name), values);
        let written = tag.save(&data).unwrap();
        let again = OggTag::open("a.ogg", &written);
        assert_eq!(again.get_raw(name), values);
        assert_eq!(again.get_raw("COMMENT"), texts(&["kept"]));
        assert_eq!(again.entries().len(), 4);
    }
}

#[test]
fn set_field_stores_lower_case_keys_in_order() {
    let mut tag = OggTag::open("a.ogg", &[]);
    tag.set_field(Field::Artist, texts(&["A", "B"]));
    tag.set_field(Field::Title, texts(&["Song"]));
    assert_eq!(
        tag.entries(),
        vec![pair("artist", "A"), pair("artist", "B"), pair("title", "Song")]
    );
}

#[test]
fn set_raw_twice_replaces() {
    let mut tag = OggTag::open("a.ogg", &[]);
    tag.set_raw("ARTIST", texts(&["one", "two"]));
    tag.set_raw("ARTIST", texts(&["three"]));
    assert_eq!(tag.get_raw("ARTIST"), texts(&["three"]));
    assert_eq!(tag.entries(), vec![pair("artist", "three")]);
}

#[test]
fn set_raw_replaces_what_the_file_held() {
    let data = stream_with("enc", &[("ARTIST", "old"), ("album", "kept"), ("Artist", "older")]);
    let mut tag = OggTag::open("a.ogg", &data);
    tag.set_raw("artist", texts(&["new"]));
    assert_eq!(tag.entries(), vec![pair("album", "kept"), pair("artist", "new")]);
}

#[test]
fn set_raw_with_no_values_clears_the_key() {
    let mut tag = OggTag::open("a.ogg", &[]);
    tag.set_raw("GENRE", texts(&["rock"]));
    tag.set_raw("LABEL", texts(&["l"]));
    tag.set_raw("GENRE", Vec::new());
    assert_eq!(tag.get_raw("GENRE"), Vec::<String>::new());
    assert_eq!(tag.entries(), vec![pair("label", "l")]);
}

#[test]
fn set_raw_keeps_other_keys() {
    let mut tag = OggTag::open("a.ogg", &[]);
    tag.set_raw("ALBUM", texts(&["x"]));
    tag.set_raw("TITLE", texts(&["y", "z"]));
    assert_eq!(tag.get_raw("ALBUM"), texts(&["x"]));
    assert_eq!(tag.get_raw("TITLE"), texts(&["y", "z"]));
}

#[test]
fn keys_are_found_without_regard_to_case() {
    let mut tag = OggTag::open("a.ogg", &[]);
    tag.set_raw("Title", texts(&["y"]));
    assert_eq!(tag.get_raw("TITLE"), texts(&["y"]));
    assert_eq!(tag.get_raw("title"), texts(&["y"]));
}

#[test]
fn set_separator_changes_nothing() {
    let mut tag = OggTag::open("a.ogg", &[]);
    tag.set_raw("ARTIST", texts(&["a", "b"]));
    let before = tag.entries();
    tag.set_separator("; ");
    assert_eq!(tag.entries(), before);
    assert_eq!(tag.path(), "a.ogg");
}

#[test]
fn release_date_is_zero_padded() {
    let data = stream_with("enc", &[]);
    let mut tag = OggTag::open("a.ogg", &data);
    tag.set_release_date(NaiveDate::from_ymd_opt(2023, 1, 5).unwrap());
    assert_eq!(tag.get_raw("DATE"), texts(&["2023-01-05"]));
    let written = tag.save(&data).unwrap();
    let again = OggTag::open("a.ogg", &written);
    assert_eq!(again.get_raw("DATE"), texts(&["2023-01-05"]));
    assert_eq!(again.entries(), vec![pair("date", "2023-01-05")]);
}

#[test]
fn release_date_at_end_of_year() {
    let data = stream_with("enc", &[]);
    let mut tag = OggTag::open("a.ogg", &data);
    tag.set_release_date(NaiveDate::from_ymd_opt(1999, 12, 31).unwrap());
    let written = tag.save(&data).unwrap();
    let again = OggTag::open("a.ogg", &written);
    assert_eq!(again.get_raw("DATE"), texts(&["1999-12-31"]));
}

#[test]
fn release_date_replaces_an_earlier_date() {
    let data = stream_with("enc", &[("DATE", "1997")]);
    let mut tag = OggTag::open("a.ogg", &data);
    tag.set_release_date(NaiveDate::from_ymd_opt(2001, 10, 9).unwrap());
    assert_eq!(tag.get_raw("DATE"), texts(&["2001-10-09"]));
    tag.set_date_parts(2002, 3, 4);
    assert_eq!(tag.entries(), vec![pair("date", "2002-03-04")]);
}

#[test]
fn release_date_pads_the_year() {
    let mut tag = OggTag::open("/m/a/s.ogg", &[]);
    tag.set_release_date(NaiveDate::from_ymd_opt(987, 6, 5).unwrap());
    assert_eq!(tag.get_raw("DATE"), texts(&["0987-06-05"]));
}

#[test]
fn release_dates_sort_as_dates_do() {
    let early = format_date(987, 6, 5);
    let late = format_date(1999, 12, 31);
    assert!(early < late);
    assert_eq!(early.len(), 10);
    assert_eq!(late.len(), 10);
}

#[test]
fn set_raw_checked_sets_and_reports() {
    let data = stream_with("enc", &[("GENRE", "old")]);
    let mut tag = OggTag::open("a.ogg", &data);
    assert!(tag.set_raw_checked("GENRE", texts(&["jazz", "blues"])));
    assert_eq!(tag.get_raw("GENRE"), texts(&["jazz", "blues"]));
    assert!(tag.set_raw_checked(Field::Title.vorbis_name(), texts(&["t"])));
    assert_eq!(tag.entries(), vec![pair("genre", "jazz"), pair("genre", "blues"), pair("title", "t")]);
}

#[test]
fn format_date_exact_values() {
    assert_eq!(format_date(2023, 1, 5), "2023-01-05");
    assert_eq!(format_date(1999, 12, 31), "1999-12-31");
    assert_eq!(format_date(2000, 10, 10), "2000-10-10");
    assert_eq!(format_date(987, 6, 5), "0987-06-05");
    assert_eq!(format_date(45, 6, 5), "0045-06-05");
    assert_eq!(format_date(7, 6, 5), "0007-06-05");
    assert_eq!(format_date(0, 1, 1), "0000-01-01");
    assert_eq!(format_date(9999, 12, 31), "9999-12-31");
    assert_eq!(format_date(12345, 1, 2), "12345-01-02");
    assert_eq!(format_date(-308, 3, 14), "-0308-03-14");
    assert_eq!(format_date(i32::MIN, 0, 100), "-2147483648-00-100");
    assert_eq!(format_date(i32::MAX, u32::MAX, 9), "2147483647-4294967295-09");
}

#[test]
fn add_cover_goes_beside_the_file() {
    let mut tag = OggTag::open("music/album/a.ogg", &[]);
    tag.set_raw("TITLE", texts(&["t"]));
    let data: Vec<u8> = vec![0xff, 0xd8, 0xff, 0xe0, 0, 1, 2, 3];
    let file = tag.add_cover("image/jpeg", data.clone()).unwrap();
    assert_eq!(std::path::Path::new(&file.path), std::path::Path::new("music/album/cover.jpg"));
    assert_eq!(file.data, data);
    assert_eq!(tag.entries(), vec![pair("title", "t")]);
}

#[test]
fn add_cover_twice_names_the_same_file() {
    let mut tag = OggTag::open("music/a.ogg", &[]);
    let first = tag.add_cover("image/jpeg", vec![1, 2, 3]).unwrap();
    let second = tag.add_cover("image/png", vec![4, 5]).unwrap();
    assert_eq!(first.path, second.path);
    assert_eq!(first.data, vec![1, 2, 3]);
    assert_eq!(second.data, vec![4, 5]);
}

#[test]
fn add_cover_for_a_bare_file_name() {
    let mut tag = OggTag::open("a.ogg", &[]);
    let file = tag.add_cover("image/jpeg", vec![9]).unwrap();
    assert_eq!(file.path, "cover.jpg");
    assert_eq!(file.data, vec![9]);
}

#[test]
fn add_cover_without_a_directory_is_skipped() {
    let mut tag = OggTag::open("", &[]);
    assert!(tag.add_cover("image/jpeg", vec![1]).is_none());
    let mut tag = OggTag::open("/", &[]);
    assert!(tag.add_cover("image/jpeg", vec![1]).is_none());
}

#[test]
fn save_keeps_the_payload_and_the_tag() {
    let data = stream_with("enc", &[("title", "old")]);
    let mut tag = OggTag::open("a.ogg", &data);
    tag.set_field(Field::Title, texts(&["new"]));
    let written = tag.save(&data).unwrap();
    assert_ne!(written, data);
    assert_eq!(tag.get_raw("TITLE"), texts(&["new"]));
    let expected = stream_with("enc", &[("title", "new")]);
    assert_eq!(written, expected);
}

#[test]
fn save_twice_gives_the_same_bytes() {
    let data = stream_with("enc", &[("title", "old")]);
    let mut tag = OggTag::open("a.ogg", &data);
    tag.set_field(Field::Genre, texts(&["jazz", "blues"]));
    let first = tag.save(&data).unwrap();
    let same = tag.save(&data).unwrap();
    assert_eq!(first, same);
    let second = tag.save(&first).unwrap();
    assert_eq!(first, second);
}

#[test]
fn save_without_change_keeps_the_file() {
    let data = stream_with("enc", &[("title", "old"), ("artist", "a")]);
    let mut tag = OggTag::open("a.ogg", &data);
    let written = tag.save(&data).unwrap();
    assert_eq!(written, data);
}

#[test]
fn save_over_what_is_no_stream_fails() {
    let mut tag = OggTag::open("a.ogg", &[]);
    tag.set_field(Field::Title, texts(&["t"]));
    let out = tag.save(b"this is no ogg stream at all, whatever its length may be");
    assert_eq!(out, Err(SaveError::Stream));
    assert_eq!(tag.get_raw("TITLE"), texts(&["t"]));
}

fn stamp(tag: &mut impl Tag) {
    tag.set_separator(", ");
    tag.set_field(Field::Album, texts(&["Album"]));
    tag.set_field(Field::TrackNumber, texts(&["3"]));
    tag.set_field(Field::DiscNumber, texts(&["1"]));
    tag.set_raw("COMMENT", texts(&["c"]));
    tag.set_release_date(NaiveDate::from_ymd_opt(2010, 11, 2).unwrap());
}

#[test]
fn adapter_is_used_through_the_trait() {
    let data = stream_with("enc", &[("album", "old")]);
    let mut tag = OggTag::open("a.ogg", &data);
    stamp(&mut tag);
    assert_eq!(
        tag.entries(),
        vec![
            pair("album", "Album"),
            pair("tracknumber", "3"),
            pair("discnumber", "1"),
            pair("comment", "c"),
            pair("date", "2010-11-02"),
        ]
    );
    let written = tag.save(&data).unwrap();
    assert_eq!(OggTag::open("a.ogg", &written).entries(), tag.entries());
}

#[test]
fn save_checked_agrees_with_save() {
    let data = stream_with("enc", &[("title", "old")]);
    let mut tag = OggTag::open("a.ogg", &data);
    tag.set_field(Field::Artist, texts(&["Zed", "Abe", "Zed"]));
    let plain = tag.save(&data).unwrap();
    let checked = tag.save_checked(&data).unwrap();
    assert_eq!(plain, checked);
    let again = OggTag::open("a.ogg", &checked);
    assert_eq!(again.entries(), tag.entries());
    assert_eq!(again.get_raw("ARTIST"), texts(&["Zed", "Abe", "Zed"]));
    assert_eq!(tag.save_checked(&checked).unwrap(), checked);
}

#[test]
fn save_checked_refuses_a_stream_without_comment_header() {
    let first: Vec<u8> = vec![1, 2, 3];
    let second: Vec<u8> = vec![4, 5, 6, 7];
    let mut out = Cursor::new(Vec::new());
    {
        let mut writer = PacketWriter::new(&mut out);
        writer
            .write_packet(first.into_boxed_slice(), 1, PacketWriteEndInfo::EndPage, 0)
            .unwrap();
        writer
            .write_packet(second.into_boxed_slice(), 1, PacketWriteEndInfo::EndStream, 0)
            .unwrap();
    }
    let data = out.into_inner();
    let mut tag = OggTag::open("a.ogg", &data);
    tag.set_field(Field::Title, texts(&["t"]));
    assert_eq!(tag.save(&data), Ok(data.clone()));
    assert_eq!(tag.save_checked(&data), Err(SaveError::Unfaithful));
    assert_eq!(tag.save_checked(b"this is no ogg stream at all, whatever its length may be"), Err(SaveError::Stream));
}

#[test]
fn same_bytes_compares_contents() {
    assert!(same_bytes(&[], &[]));
    assert!(same_bytes(&[1, 2, 3], &[1, 2, 3]));
    assert!(!same_bytes(&[1, 2, 3], &[1, 2]));
    assert!(!same_bytes(&[1, 2, 3], &[1, 2, 4]));
}
