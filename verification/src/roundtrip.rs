//! The pair encoding of an export is a lookup-table text: what one writes,
//! the other reads back.

use crate::export::pairs_text;
use crate::lookup::{
    entries_from, is_number_byte, is_number_text, is_space, lemma_number_end_bounds,
    lemma_skip_spaces_bounds, number_end, skip_spaces, table_entries, COMMA, SEMICOLON,
};
use vstd::prelude::*;
use vstd::string::*;
use vstd::utf8::*;

verus! {

/// The bytes of one entry as the pair encoding writes it.
pub open spec fn entry_bytes(entry: (Seq<u8>, Seq<u8>)) -> Seq<u8> {
    entry.0 + seq![COMMA] + entry.1 + seq![SEMICOLON, 10u8]
}

/// The bytes of the entries as the pair encoding writes them.
pub open spec fn pairs_bytes(entries: Seq<(Seq<u8>, Seq<u8>)>) -> Seq<u8>
    decreases entries.len(),
{
    if entries.len() == 0 {
        Seq::empty()
    } else {
        pairs_bytes(entries.drop_last()) + entry_bytes(entries.last())
    }
}

/// The bytes of each text of each point.
pub open spec fn encoded(points: Seq<(Seq<char>, Seq<char>)>) -> Seq<(Seq<u8>, Seq<u8>)> {
    Seq::new(points.len(), |i: int| (encode_utf8(points[i].0), encode_utf8(points[i].1)))
}

/// Whether both texts of every entry can be the text of a number.
pub open spec fn all_number_texts(entries: Seq<(Seq<u8>, Seq<u8>)>) -> bool {
    forall|i: int|
        0 <= i < entries.len() ==> is_number_text((#[trigger] entries[i]).0) && is_number_text(
            entries[i].1,
        )
}

/// The bytes of two texts in a row are the bytes of the one followed by the
/// bytes of the other.
pub proof fn lemma_encode_concat(a: Seq<char>, b: Seq<char>)
    ensures
        encode_utf8(a + b) == encode_utf8(a) + encode_utf8(b),
    decreases a.len(),
{
    if a.len() > 0 {
        lemma_encode_concat(a.drop_first(), b);
        assert((a + b).drop_first() =~= a.drop_first() + b);
    }
}

/// The bytes of the two delimiters of the pair encoding.
pub proof fn lemma_delimiter_bytes()
    ensures
        encode_utf8(","@) == seq![COMMA],
        encode_utf8(";\n"@) == seq![SEMICOLON, 10u8],
{
    reveal_strlit(",");
    reveal_strlit(";\n");
    is_ascii_spec_bytes(",");
    is_ascii_spec_bytes(";\n");
}

/// The pair encoding of points, as bytes, is the pair encoding of their
/// bytes.
pub proof fn lemma_pairs_text_bytes(points: Seq<(Seq<char>, Seq<char>)>)
    ensures
        encode_utf8(pairs_text(points)) == pairs_bytes(encoded(points)),
    decreases points.len(),
{
    if points.len() > 0 {
        let rest = points.drop_last();
        let last = points.last();
        lemma_pairs_text_bytes(rest);
        lemma_delimiter_bytes();
        let head = pairs_text(rest);
        lemma_encode_concat(head + last.0 + ","@ + last.1, ";\n"@);
        lemma_encode_concat(head + last.0 + ","@, last.1);
        lemma_encode_concat(head + last.0, ","@);
        lemma_encode_concat(head, last.0);
        assert(encoded(points).drop_last() =~= encoded(rest));
        assert(encode_utf8(pairs_text(points)) =~= pairs_bytes(encoded(rest)) + entry_bytes(
            encoded(points).last(),
        ));
    }
}

/// The entries written first to last, unfolded from the front.
spec fn pairs_from_front(entries: Seq<(Seq<u8>, Seq<u8>)>) -> Seq<u8>
    decreases entries.len(),
{
    if entries.len() == 0 {
        Seq::empty()
    } else {
        entry_bytes(entries.first()) + pairs_from_front(entries.drop_first())
    }
}

proof fn lemma_pairs_unfold_front(entries: Seq<(Seq<u8>, Seq<u8>)>)
    ensures
        pairs_bytes(entries) == pairs_from_front(entries),
    decreases entries.len(),
{
    if entries.len() == 0 {
    } else if entries.len() == 1 {
        assert(entries.drop_first() =~= Seq::empty());
        assert(pairs_bytes(entries.drop_last()) =~= Seq::<u8>::empty());
        assert(pairs_from_front(entries.drop_first()) =~= Seq::<u8>::empty());
    } else {
        let middle = entries.drop_first().drop_last();
        assert(entries.drop_last().drop_first() =~= middle);
        lemma_pairs_unfold_front(entries.drop_last());
        lemma_pairs_unfold_front(entries.drop_first());
        lemma_pairs_unfold_front(middle);
        // back(entries) = back(init) + e_last = front(init) + e_last
        //               = e_first + front(middle) + e_last
        // front(entries) = e_first + front(tail) = e_first + back(tail)
        //               = e_first + back(middle) + e_last
        assert(pairs_bytes(entries) =~= entry_bytes(entries.first()) + pairs_from_front(middle)
            + entry_bytes(entries.last()));
        assert(pairs_from_front(entries) =~= entry_bytes(entries.first()) + (pairs_bytes(middle)
            + entry_bytes(entries.last())));
    }
}

/// Skipping a run of whitespace ends where the run ends.
pub proof fn lemma_skip_run(s: Seq<u8>, i: int, j: int)
    requires
        0 <= i <= j <= s.len(),
        forall|k: int| i <= k < j ==> is_space(#[trigger] s[k]),
        j == s.len() || !is_space(s[j]),
    ensures
        skip_spaces(s, i) == j,
    decreases j - i,
{
    if i < j {
        lemma_skip_run(s, i + 1, j);
    }
}

/// A run of number bytes ends where the first other byte stands.
pub proof fn lemma_number_run(s: Seq<u8>, i: int, j: int)
    requires
        0 <= i <= j <= s.len(),
        forall|k: int| i <= k < j ==> is_number_byte(#[trigger] s[k]),
        j == s.len() || !is_number_byte(s[j]),
    ensures
        number_end(s, i) == j,
    decreases j - i,
{
    if i < j {
        lemma_number_run(s, i + 1, j);
    }
}

/// Where the parts of an entry stand in a text that holds it after a prefix
/// and a gap.
proof fn lemma_entry_layout(
    prefix: Seq<u8>,
    gap: Seq<u8>,
    entry: (Seq<u8>, Seq<u8>),
    tail: Seq<u8>,
)
    ensures
        ({
            let s = prefix + gap + (entry_bytes(entry) + tail);
            let start = (prefix.len() + gap.len()) as int;
            let comma = start + entry.0.len();
            let semicolon = comma + 1 + entry.1.len();
            &&& s.len() == semicolon + 2 + tail.len()
            &&& forall|k: int|
                prefix.len() <= k < start ==> #[trigger] s[k] == gap[k - prefix.len()]
            &&& forall|k: int| start <= k < comma ==> #[trigger] s[k] == entry.0[k - start]
            &&& s[comma] == COMMA
            &&& forall|k: int|
                comma + 1 <= k < semicolon ==> #[trigger] s[k] == entry.1[k - comma - 1]
            &&& s[semicolon] == SEMICOLON
            &&& s.subrange(start, comma) == entry.0
            &&& s.subrange(comma + 1, semicolon) == entry.1
            &&& s == s.subrange(0, semicolon + 1) + seq![10u8] + tail
        }),
{
    let s = prefix + gap + (entry_bytes(entry) + tail);
    let start = (prefix.len() + gap.len()) as int;
    let comma = start + entry.0.len();
    let semicolon = comma + 1 + entry.1.len();
    let written = entry_bytes(entry);
    assert forall|k: int| 0 <= k < written.len() implies s[start + k] == #[trigger] written[k] by {}
    assert forall|k: int| start <= k < comma implies #[trigger] s[k] == entry.0[k - start] by {}
    assert forall|k: int| comma + 1 <= k < semicolon implies #[trigger] s[k] == entry.1[k - comma
        - 1] by {}
}

/// Reading one entry: over a gap of whitespace to the first number, over
/// the number to the comma, over the second number to the semicolon.
proof fn lemma_read_entry(s: Seq<u8>, i: int, start: int, comma: int, semicolon: int)
    requires
        0 <= i <= start < comma < semicolon - 1,
        semicolon < s.len(),
        forall|k: int| i <= k < start ==> is_space(#[trigger] s[k]),
        forall|k: int| start <= k < comma ==> is_number_byte(#[trigger] s[k]),
        s[comma] == COMMA,
        forall|k: int| comma + 1 <= k < semicolon ==> is_number_byte(#[trigger] s[k]),
        s[semicolon] == SEMICOLON,
    ensures
        skip_spaces(s, i) == start,
        number_end(s, start) == comma,
        number_end(s, comma + 1) == semicolon,
{
    lemma_skip_run(s, i, start);
    lemma_number_run(s, start, comma);
    lemma_number_run(s, comma + 1, semicolon);
}

proof fn lemma_entries_after(prefix: Seq<u8>, gap: Seq<u8>, entries: Seq<(Seq<u8>, Seq<u8>)>)
    requires
        all_number_texts(entries),
        forall|k: int| 0 <= k < gap.len() ==> is_space(#[trigger] gap[k]),
    ensures
        entries_from(prefix + gap + pairs_from_front(entries), prefix.len() as int) == Some(
            entries,
        ),
    decreases entries.len(),
{
    let s = prefix + gap + pairs_from_front(entries);
    let i = prefix.len() as int;
    if entries.len() == 0 {
        lemma_skip_run(s, i, s.len() as int);
    } else {
        let first = entries.first();
        let rest = entries.drop_first();
        let start = i + gap.len();
        let comma = start + first.0.len();
        let semicolon = comma + 1 + first.1.len();
        lemma_entry_layout(prefix, gap, first, pairs_from_front(rest));
        assert(skip_spaces(s, i) == start && number_end(s, start) == comma && number_end(
            s,
            comma + 1,
        ) == semicolon) by {
            lemma_read_entry(s, i, start, comma, semicolon);
        }
        assert(all_number_texts(rest)) by {
            assert forall|k: int| 0 <= k < rest.len() implies is_number_text(
                (#[trigger] rest[k]).0,
            ) && is_number_text(rest[k].1) by {
                assert(rest[k] == entries[k + 1]);
            }
        }
        lemma_entries_after(s.subrange(0, semicolon + 1), seq![10u8], rest);
    }
}

/// Every number text of a lookup table is not empty and free of whitespace,
/// comma and semicolon.
pub proof fn lemma_entries_are_number_texts(s: Seq<u8>, i: int)
    requires
        0 <= i <= s.len(),
        entries_from(s, i).is_some(),
    ensures
        all_number_texts(entries_from(s, i).unwrap()),
    decreases s.len() - i,
{
    lemma_skip_spaces_bounds(s, i);
    let start = skip_spaces(s, i);
    if start < s.len() {
        lemma_number_end_bounds(s, start);
        let comma = number_end(s, start);
        lemma_number_end_bounds(s, comma + 1);
        let semicolon = number_end(s, comma + 1);
        let rest = entries_from(s, semicolon + 1).unwrap();
        lemma_entries_are_number_texts(s, semicolon + 1);
        let first = (s.subrange(start, comma), s.subrange(comma + 1, semicolon));
        let all = entries_from(s, i).unwrap();
        assert(all == seq![first] + rest);
        assert forall|k: int| 0 <= k < all.len() implies is_number_text((#[trigger] all[k]).0)
            && is_number_text(all[k].1) by {
            if k > 0 {
                assert(all[k] == rest[k - 1]);
            }
        }
    }
}

/// Entries written in the pair encoding read back as they were written.
pub proof fn lemma_pairs_bytes_read_back(entries: Seq<(Seq<u8>, Seq<u8>)>)
    requires
        entries.len() > 0,
        all_number_texts(entries),
    ensures
        table_entries(pairs_bytes(entries)) == Some(entries),
{
    lemma_pairs_unfold_front(entries);
    lemma_entries_after(Seq::empty(), Seq::empty(), entries);
    assert(Seq::<u8>::empty() + Seq::<u8>::empty() + pairs_from_front(entries)
        =~= pairs_from_front(entries));
}

/// Writing the entries of a lookup table in the pair encoding gives a lookup
/// table with the same entries, whatever whitespace the first text had.
pub proof fn lemma_rewritten_table_is_same(s: Seq<u8>)
    requires
        table_entries(s).is_some(),
    ensures
        table_entries(pairs_bytes(table_entries(s).unwrap())) == table_entries(s),
{
    lemma_entries_are_number_texts(s, 0);
    lemma_pairs_bytes_read_back(table_entries(s).unwrap());
}

/// A text in the pair encoding is a lookup table with the entries that were
/// written: for at least one entry, and numbers that are written without
/// whitespace, comma and semicolon, the format reads back exactly what the
/// encoding wrote.
pub proof fn lemma_pairs_read_back(points: Seq<(Seq<char>, Seq<char>)>)
    requires
        points.len() > 0,
        all_number_texts(encoded(points)),
    ensures
        table_entries(encode_utf8(pairs_text(points))) == Some(encoded(points)),
{
    lemma_pairs_text_bytes(points);
    lemma_pairs_bytes_read_back(encoded(points));
}

} // verus!
