//! What holds of setting and reading comments, whatever the header held
//! before.

use crate::comments::{entries_for, key_is_settled, same_key, values_of, with_key, without_key};
use crate::field::{vorbis_key, Field};
use crate::comments::parsed_header;
use crate::date::{
    date_before, date_text, decimal, digit_char, four_digits, text_before, two_digits, year_text,
};
use crate::ogg::{date_key, dated, keyed, opened, saved, saved_faithfully, TagView};
use crate::sidecar::cover_beside;
use crate::tag::SaveError;
use vstd::prelude::*;

verus! {

proof fn without_key_of_concat(
    a: Seq<(Seq<char>, Seq<char>)>,
    b: Seq<(Seq<char>, Seq<char>)>,
    key: Seq<char>,
)
    ensures
        without_key(a + b, key) == without_key(a, key) + without_key(b, key),
    decreases b.len(),
{
    if b.len() == 0 {
        assert(a + b =~= a);
        assert(without_key(a, key) + without_key(b, key) =~= without_key(a, key));
    } else {
        without_key_of_concat(a, b.drop_last(), key);
        assert((a + b).drop_last() =~= a + b.drop_last());
        assert((a + b).last() == b.last());
        if same_key(b.last().0, key) {
        } else {
            assert(without_key(a + b, key) =~= without_key(a, key) + without_key(b, key));
        }
    }
}

proof fn values_of_concat(
    a: Seq<(Seq<char>, Seq<char>)>,
    b: Seq<(Seq<char>, Seq<char>)>,
    key: Seq<char>,
)
    ensures
        values_of(a + b, key) == values_of(a, key) + values_of(b, key),
    decreases b.len(),
{
    if b.len() == 0 {
        assert(a + b =~= a);
        assert(values_of(a, key) + values_of(b, key) =~= values_of(a, key));
    } else {
        values_of_concat(a, b.drop_last(), key);
        assert((a + b).drop_last() =~= a + b.drop_last());
        assert((a + b).last() == b.last());
        if same_key(b.last().0, key) {
            assert(values_of(a + b, key) =~= values_of(a, key) + values_of(b, key));
        } else {
        }
    }
}

proof fn cleared_key_has_no_values(entries: Seq<(Seq<char>, Seq<char>)>, key: Seq<char>)
    ensures
        values_of(without_key(entries, key), key) == Seq::<Seq<char>>::empty(),
    decreases entries.len(),
{
    if entries.len() > 0 {
        cleared_key_has_no_values(entries.drop_last(), key);
        if !same_key(entries.last().0, key) {
            let rest = without_key(entries.drop_last(), key);
            assert(rest.push(entries.last()).drop_last() =~= rest);
        }
    }
}

proof fn clearing_keeps_other_values(
    entries: Seq<(Seq<char>, Seq<char>)>,
    key: Seq<char>,
    other: Seq<char>,
)
    requires
        !same_key(key, other),
    ensures
        values_of(without_key(entries, key), other) == values_of(entries, other),
    decreases entries.len(),
{
    if entries.len() > 0 {
        clearing_keeps_other_values(entries.drop_last(), key, other);
        if !same_key(entries.last().0, key) {
            let rest = without_key(entries.drop_last(), key);
            assert(rest.push(entries.last()).drop_last() =~= rest);
        }
    }
}

proof fn new_entries_hold_values(key: Seq<char>, values: Seq<Seq<char>>)
    requires
        key_is_settled(key),
    ensures
        values_of(entries_for(key, values), key) == values,
        without_key(entries_for(key, values), key) == Seq::<(Seq<char>, Seq<char>)>::empty(),
    decreases values.len(),
{
    if values.len() > 0 {
        new_entries_hold_values(key, values.drop_last());
        assert(entries_for(key, values).drop_last() =~= entries_for(key, values.drop_last()));
        assert(values_of(entries_for(key, values), key) =~= values);
    } else {
        assert(values_of(entries_for(key, values), key) =~= values);
    }
}

proof fn new_entries_miss_other_keys(key: Seq<char>, values: Seq<Seq<char>>, other: Seq<char>)
    requires
        key_is_settled(key),
        !same_key(key, other),
    ensures
        values_of(entries_for(key, values), other) == Seq::<Seq<char>>::empty(),
    decreases values.len(),
{
    if values.len() > 0 {
        new_entries_miss_other_keys(key, values.drop_last(), other);
        assert(entries_for(key, values).drop_last() =~= entries_for(key, values.drop_last()));
    }
}

/// A key holds exactly the values it was last given, in their order,
/// whatever it and the other keys held before.
pub proof fn key_holds_what_was_set(
    entries: Seq<(Seq<char>, Seq<char>)>,
    key: Seq<char>,
    values: Seq<Seq<char>>,
)
    requires
        key_is_settled(key),
    ensures
        values_of(with_key(entries, key, values), key) == values,
{
    values_of_concat(without_key(entries, key), entries_for(key, values), key);
    cleared_key_has_no_values(entries, key);
    new_entries_hold_values(key, values);
    assert(Seq::<Seq<char>>::empty() + values =~= values);
}

/// Setting a key twice replaces: the comments are those that the second
/// setting alone would have left.
pub proof fn second_setting_replaces_first(
    entries: Seq<(Seq<char>, Seq<char>)>,
    key: Seq<char>,
    first: Seq<Seq<char>>,
    second: Seq<Seq<char>>,
)
    requires
        key_is_settled(key),
    ensures
        with_key(with_key(entries, key, first), key, second) == with_key(entries, key, second),
        values_of(with_key(with_key(entries, key, first), key, second), key) == second,
{
    let kept = without_key(entries, key);
    without_key_of_concat(kept, entries_for(key, first), key);
    new_entries_hold_values(key, first);
    clearing_is_idempotent(entries, key);
    assert(kept + Seq::<(Seq<char>, Seq<char>)>::empty() =~= kept);
    key_holds_what_was_set(entries, key, second);
}

proof fn clearing_is_idempotent(entries: Seq<(Seq<char>, Seq<char>)>, key: Seq<char>)
    ensures
        without_key(without_key(entries, key), key) == without_key(entries, key),
    decreases entries.len(),
{
    if entries.len() > 0 {
        clearing_is_idempotent(entries.drop_last(), key);
        if !same_key(entries.last().0, key) {
            let rest = without_key(entries.drop_last(), key);
            assert(rest.push(entries.last()).drop_last() =~= rest);
        }
    }
}

/// Setting a key leaves the values of every other key as they were.
pub proof fn setting_keeps_other_keys(
    entries: Seq<(Seq<char>, Seq<char>)>,
    key: Seq<char>,
    values: Seq<Seq<char>>,
    other: Seq<char>,
)
    requires
        key_is_settled(key),
        !same_key(key, other),
    ensures
        values_of(with_key(entries, key, values), other) == values_of(entries, other),
{
    values_of_concat(without_key(entries, key), entries_for(key, values), other);
    clearing_keeps_other_values(entries, key, other);
    new_entries_miss_other_keys(key, values, other);
    assert(values_of(entries, other) + Seq::<Seq<char>>::empty() =~= values_of(entries, other));
}

/// After a field has been set, its Vorbis-comment key holds exactly the
/// values given, in their order; path and vendor are as before.
pub proof fn field_holds_what_was_set(tag: TagView, field: Field, values: Seq<Seq<char>>)
    requires
        key_is_settled(vorbis_key(field)),
    ensures
        values_of(keyed(tag, vorbis_key(field), values).entries, vorbis_key(field)) == values,
        keyed(tag, vorbis_key(field), values).path == tag.path,
        keyed(tag, vorbis_key(field), values).vendor == tag.vendor,
{
    key_holds_what_was_set(tag.entries, vorbis_key(field), values);
}

/// Setting a key on a tag twice leaves the tag that the second setting alone
/// would have left.
pub proof fn second_raw_setting_replaces_first(
    tag: TagView,
    key: Seq<char>,
    first: Seq<Seq<char>>,
    second: Seq<Seq<char>>,
)
    requires
        key_is_settled(key),
    ensures
        keyed(keyed(tag, key, first), key, second) == keyed(tag, key, second),
{
    second_setting_replaces_first(tag.entries, key, first, second);
}

/// After the release date has been set, `DATE` holds one value: the text of
/// that date.
pub proof fn date_holds_its_text(tag: TagView, year: int, month: nat, day: nat)
    requires
        key_is_settled(date_key()),
    ensures
        values_of(dated(tag, year, month, day).entries, date_key()) == seq![
            date_text(year, month, day),
        ],
{
    key_holds_what_was_set(tag.entries, date_key(), seq![date_text(year, month, day)]);
}

proof fn decimal_lengths(n: nat)
    ensures
        n < 10 ==> decimal(n).len() == 1,
        10 <= n < 100 ==> decimal(n).len() == 2,
        100 <= n < 1000 ==> decimal(n).len() == 3,
        1000 <= n < 10000 ==> decimal(n).len() == 4,
{
    reveal_with_fuel(decimal, 5);
}

/// From year 0 to year 9999 the text of a date has ten characters, with
/// hyphens after the year and after the month.
pub proof fn date_text_has_ten_characters(year: int, month: nat, day: nat)
    requires
        0 <= year <= 9999,
        1 <= month <= 12,
        1 <= day <= 31,
    ensures
        date_text(year, month, day).len() == 10,
        date_text(year, month, day)[4] == '-',
        date_text(year, month, day)[7] == '-',
        date_text(year, month, day).subrange(0, 4) == four_digits(year as nat),
        date_text(year, month, day).subrange(5, 7) == two_digits(month),
        date_text(year, month, day).subrange(8, 10) == two_digits(day),
{
    decimal_lengths(year as nat);
    decimal_lengths(month);
    decimal_lengths(day);
    let text = date_text(year, month, day);
    assert(year_text(year).len() == 4);
    assert(two_digits(month).len() == 2);
    assert(two_digits(day).len() == 2);
    assert(text.subrange(0, 4) =~= four_digits(year as nat));
    assert(text.subrange(5, 7) =~= two_digits(month));
    assert(text.subrange(8, 10) =~= two_digits(day));
}

proof fn date_text_spelled_out(year: int, month: nat, day: nat)
    requires
        0 <= year <= 9999,
        1 <= month <= 12,
        1 <= day <= 31,
    ensures
        date_text(year, month, day) == seq![
            digit_char((year / 10 / 10 / 10) as nat),
            digit_char((year / 10 / 10 % 10) as nat),
            digit_char((year / 10 % 10) as nat),
            digit_char((year % 10) as nat),
            '-',
            digit_char(month / 10),
            digit_char(month % 10),
            '-',
            digit_char(day / 10),
            digit_char(day % 10),
        ],
{
    reveal_with_fuel(decimal, 5);
    let spelled = seq![
        digit_char((year / 10 / 10 / 10) as nat),
        digit_char((year / 10 / 10 % 10) as nat),
        digit_char((year / 10 % 10) as nat),
        digit_char((year % 10) as nat),
        '-',
        digit_char(month / 10),
        digit_char(month % 10),
        '-',
        digit_char(day / 10),
        digit_char(day % 10),
    ];
    date_text_has_ten_characters(year, month, day);
    assert(date_text(year, month, day) =~= spelled);
}

proof fn digits_in_order(a: nat, b: nat)
    requires
        a < 10,
        b < 10,
    ensures
        (digit_char(a) == digit_char(b)) == (a == b),
        ((digit_char(a) as u32) < (digit_char(b) as u32)) == (a < b),
{
}

proof fn text_is_not_before_itself(a: Seq<char>)
    ensures
        !text_before(a, a),
    decreases a.len(),
{
    if a.len() > 0 {
        text_is_not_before_itself(a.drop_first());
    }
}

proof fn text_order_at(a: Seq<char>, b: Seq<char>, k: int)
    requires
        a.len() == b.len(),
        0 <= k < a.len(),
        forall|i: int| 0 <= i < k ==> a[i] == b[i],
        a[k] != b[k],
    ensures
        text_before(a, b) == ((a[k] as u32) < (b[k] as u32)),
        a != b,
    decreases k,
{
    if k > 0 {
        assert(a[0] == b[0]);
        assert forall|i: int| 0 <= i < k - 1 implies a.drop_first()[i] == b.drop_first()[i] by {
            assert(a.drop_first()[i] == a[i + 1]);
            assert(b.drop_first()[i] == b[i + 1]);
        }
        text_order_at(a.drop_first(), b.drop_first(), k - 1);
    }
}

spec fn spelled(g: Seq<nat>) -> Seq<char> {
    seq![
        digit_char(g[0]),
        digit_char(g[1]),
        digit_char(g[2]),
        digit_char(g[3]),
        '-',
        digit_char(g[4]),
        digit_char(g[5]),
        '-',
        digit_char(g[6]),
        digit_char(g[7]),
    ]
}

spec fn digits_before(g: Seq<nat>, h: Seq<nat>, from: int) -> bool
    decreases 8 - from,
{
    if from < 0 || from >= 8 {
        false
    } else if g[from] != h[from] {
        g[from] < h[from]
    } else {
        digits_before(g, h, from + 1)
    }
}

spec fn place(digit: int) -> int {
    if digit < 4 {
        digit
    } else if digit < 6 {
        digit + 1
    } else {
        digit + 2
    }
}

proof fn spelled_order_from(g: Seq<nat>, h: Seq<nat>, from: int)
    requires
        g.len() == 8,
        h.len() == 8,
        forall|i: int| 0 <= i < 8 ==> g[i] < 10 && h[i] < 10,
        0 <= from <= 8,
        forall|i: int| 0 <= i < from ==> g[i] == h[i],
    ensures
        text_before(spelled(g), spelled(h)) == digits_before(g, h, from),
        (spelled(g) == spelled(h)) == (forall|i: int| from <= i < 8 ==> g[i] == h[i]),
    decreases 8 - from,
{
    if from == 8 {
        assert(spelled(g) =~= spelled(h));
        text_is_not_before_itself(spelled(g));
    } else if g[from] != h[from] {
        digits_in_order(g[from], h[from]);
        text_order_at(spelled(g), spelled(h), place(from));
    } else {
        spelled_order_from(g, h, from + 1);
    }
}

proof fn year_from_digits(y: int)
    requires
        0 <= y <= 9999,
    ensures
        y == 1000 * (y / 10 / 10 / 10) + 100 * (y / 10 / 10 % 10) + 10 * (y / 10 % 10) + y % 10,
        0 <= y / 10 / 10 / 10 < 10,
{
    let a = y / 10;
    let b = a / 10;
    let c = b / 10;
    assert(y == 10 * a + y % 10);
    assert(a == 10 * b + a % 10);
    assert(b == 10 * c + b % 10);
}

/// From year 0 to year 9999 the texts of two dates stand in the order of
/// the dates, and are equal only for the same date.
pub proof fn date_texts_sort_as_dates(y1: int, m1: nat, d1: nat, y2: int, m2: nat, d2: nat)
    requires
        0 <= y1 <= 9999,
        1 <= m1 <= 12,
        1 <= d1 <= 31,
        0 <= y2 <= 9999,
        1 <= m2 <= 12,
        1 <= d2 <= 31,
    ensures
        text_before(date_text(y1, m1, d1), date_text(y2, m2, d2)) == date_before(
            y1,
            m1,
            d1,
            y2,
            m2,
            d2,
        ),
        (date_text(y1, m1, d1) == date_text(y2, m2, d2)) == (y1 == y2 && m1 == m2 && d1 == d2),
{
    let g: Seq<nat> = seq![
        (y1 / 10 / 10 / 10) as nat,
        (y1 / 10 / 10 % 10) as nat,
        (y1 / 10 % 10) as nat,
        (y1 % 10) as nat,
        m1 / 10,
        m1 % 10,
        d1 / 10,
        d1 % 10,
    ];
    let h: Seq<nat> = seq![
        (y2 / 10 / 10 / 10) as nat,
        (y2 / 10 / 10 % 10) as nat,
        (y2 / 10 % 10) as nat,
        (y2 % 10) as nat,
        m2 / 10,
        m2 % 10,
        d2 / 10,
        d2 % 10,
    ];
    date_text_spelled_out(y1, m1, d1);
    date_text_spelled_out(y2, m2, d2);
    assert(date_text(y1, m1, d1) =~= spelled(g));
    assert(date_text(y2, m2, d2) =~= spelled(h));
    year_from_digits(y1);
    year_from_digits(y2);
    spelled_order_from(g, h, 0);
    assert(digits_before(g, h, 0) == date_before(y1, m1, d1, y2, m2, d2)) by {
        reveal_with_fuel(digits_before, 9);
    }
    if y1 == y2 && m1 == m2 && d1 == d2 {
        assert(g =~= h);
    } else {
        assert(g[0] != h[0] || g[1] != h[1] || g[2] != h[2] || g[3] != h[3] || g[4] != h[4]
            || g[5] != h[5] || g[6] != h[6] || g[7] != h[7]);
    }
}

/// Bytes in which no comment header can be read open as a tag without
/// comments and without a vendor.
pub proof fn unreadable_header_opens_empty(path: Seq<char>, contents: Seq<u8>)
    requires
        parsed_header(contents) is None,
    ensures
        opened(path, contents).entries.len() == 0,
        opened(path, contents).vendor.len() == 0,
        opened(path, contents).path == path,
{
}

/// What a checked save hands out opens as the tag that was saved, and
/// saving that tag over it gives the same bytes again.
pub proof fn checked_save_reads_back(tag: TagView, contents: Seq<u8>, bytes: Seq<u8>)
    requires
        saved_faithfully(tag, contents) == Ok::<Seq<u8>, SaveError>(bytes),
    ensures
        saved(tag, contents) == Ok::<Seq<u8>, SaveError>(bytes),
        opened(tag.path, bytes) == tag,
        saved(tag, bytes) == Ok::<Seq<u8>, SaveError>(bytes),
        saved_faithfully(tag, bytes) == Ok::<Seq<u8>, SaveError>(bytes),
{
}

/// A field that was set, then saved with the check and opened again from
/// the new bytes, holds exactly the values given, in their order.
pub proof fn field_survives_checked_save(
    tag: TagView,
    field: Field,
    values: Seq<Seq<char>>,
    contents: Seq<u8>,
    bytes: Seq<u8>,
)
    requires
        key_is_settled(vorbis_key(field)),
        saved_faithfully(keyed(tag, vorbis_key(field), values), contents) == Ok::<
            Seq<u8>,
            SaveError,
        >(bytes),
    ensures
        values_of(opened(tag.path, bytes).entries, vorbis_key(field)) == values,
{
    key_holds_what_was_set(tag.entries, vorbis_key(field), values);
    checked_save_reads_back(keyed(tag, vorbis_key(field), values), contents, bytes);
}

/// A release date that was set, then saved with the check and opened again
/// from the new bytes, is the one value of `DATE`.
pub proof fn date_survives_checked_save(
    tag: TagView,
    year: int,
    month: nat,
    day: nat,
    contents: Seq<u8>,
    bytes: Seq<u8>,
)
    requires
        key_is_settled(date_key()),
        saved_faithfully(dated(tag, year, month, day), contents) == Ok::<Seq<u8>, SaveError>(
            bytes,
        ),
    ensures
        values_of(opened(tag.path, bytes).entries, date_key()) == seq![
            date_text(year, month, day),
        ],
{
    date_holds_its_text(tag, year, month, day);
    checked_save_reads_back(dated(tag, year, month, day), contents, bytes);
}

/// Cover art of one file always goes to the same place, whatever the
/// picture, and is written as it came.
pub proof fn cover_goes_to_one_place(path: Seq<char>, first: Seq<u8>, second: Seq<u8>)
    ensures
        cover_beside(path, first) is Some <==> cover_beside(path, second) is Some,
        cover_beside(path, first) matches Some(a) ==> a.1 == first && a.0 == cover_beside(
            path,
            second,
        ).unwrap().0,
{
}

/// Saving depends on the vendor, the comments and the file's bytes alone:
/// two tags that agree on vendor and comments save to the same bytes, or both
/// fail.
pub proof fn saving_depends_on_header_and_bytes(a: TagView, b: TagView, contents: Seq<u8>)
    requires
        a.vendor == b.vendor,
        a.entries == b.entries,
    ensures
        saved(a, contents) == saved(b, contents),
{
}

} // verus!
