//! The lookup-table text format: entries `x,y;` with whitespace allowed
//! between them, and nowhere else.
//!
//! The format decides where numbers stand, not what a number is: a number is
//! any run of bytes free of whitespace, `,` and `;`. Turning such a run into a
//! value is left to the caller; the order of the values is checked here again
//! once they are known.

use crate::scalar::Scalar;
use crate::types::{is_strictly_increasing, strictly_increasing, Point};
use vstd::prelude::*;
use vstd::slice::*;
use vstd::string::*;

verus! {

/// The byte that parts `x` from `y`.
pub const COMMA: u8 = 44;

/// The byte that ends an entry.
pub const SEMICOLON: u8 = 59;

/// Whether the byte is ASCII whitespace: tab, line feed, vertical tab, form
/// feed, carriage return or space.
pub open spec fn is_space(b: u8) -> bool {
    (9 <= b <= 13) || b == 32
}

/// Whether the byte may stand inside a number.
pub open spec fn is_number_byte(b: u8) -> bool {
    !is_space(b) && b != COMMA && b != SEMICOLON
}

/// Whether the bytes can be the text of one number: not empty, and free of
/// whitespace and of the two delimiters.
pub open spec fn is_number_text(s: Seq<u8>) -> bool {
    s.len() > 0 && forall|i: int| 0 <= i < s.len() ==> is_number_byte(#[trigger] s[i])
}

/// The first position at or after `i` that holds no whitespace.
pub open spec fn skip_spaces(s: Seq<u8>, i: int) -> int
    decreases s.len() - i,
{
    if 0 <= i < s.len() && is_space(s[i]) {
        skip_spaces(s, i + 1)
    } else {
        i
    }
}

/// The first position at or after `i` that cannot belong to a number.
pub open spec fn number_end(s: Seq<u8>, i: int) -> int
    decreases s.len() - i,
{
    if 0 <= i < s.len() && is_number_byte(s[i]) {
        number_end(s, i + 1)
    } else {
        i
    }
}

/// The two number texts of one entry, as written.
pub struct LookupEntry {
    pub x: Vec<u8>,
    pub y: Vec<u8>,
}

impl View for LookupEntry {
    type V = (Seq<u8>, Seq<u8>);

    open spec fn view(&self) -> (Seq<u8>, Seq<u8>) {
        (self.x@, self.y@)
    }
}

impl DeepView for LookupEntry {
    type V = (Seq<u8>, Seq<u8>);

    open spec fn deep_view(&self) -> (Seq<u8>, Seq<u8>) {
        (self.x@, self.y@)
    }
}

/// The entries that the text holds from position `i` on, if the rest of the
/// text is nothing but whitespace and well-formed entries.
pub open spec fn entries_from(s: Seq<u8>, i: int) -> Option<Seq<(Seq<u8>, Seq<u8>)>>
    decreases s.len() - i,
{
    let start = skip_spaces(s, i);
    if i < 0 || start >= s.len() {
        Some(Seq::empty())
    } else {
        let comma = number_end(s, start);
        let semicolon = number_end(s, comma + 1);
        if comma == start || comma >= s.len() || s[comma] != COMMA {
            None
        } else if semicolon == comma + 1 || semicolon >= s.len() || s[semicolon] != SEMICOLON {
            None
        } else {
            proof {
                lemma_skip_spaces_bounds(s, i);
                lemma_number_end_bounds(s, start);
                lemma_number_end_bounds(s, comma + 1);
            }
            match entries_from(s, semicolon + 1) {
                Some(rest) => Some(
                    seq![(s.subrange(start, comma), s.subrange(comma + 1, semicolon))] + rest,
                ),
                None => None,
            }
        }
    }
}

/// The entries of a lookup-table text: present if and only if the text is at
/// least one well-formed entry, with nothing but whitespace around and between
/// the entries.
pub open spec fn table_entries(s: Seq<u8>) -> Option<Seq<(Seq<u8>, Seq<u8>)>> {
    match entries_from(s, 0) {
        Some(entries) => if entries.len() > 0 {
            Some(entries)
        } else {
            None
        },
        None => None,
    }
}

/// Skipping never moves backwards nor past the end.
pub proof fn lemma_skip_spaces_bounds(s: Seq<u8>, i: int)
    requires
        0 <= i <= s.len(),
    ensures
        i <= skip_spaces(s, i) <= s.len(),
        skip_spaces(s, i) < s.len() ==> !is_space(s[skip_spaces(s, i)]),
    decreases s.len() - i,
{
    if i < s.len() && is_space(s[i]) {
        lemma_skip_spaces_bounds(s, i + 1);
    }
}

/// A number ends at or after its start, inside the text, on a byte that is
/// no number byte, and holds number bytes only.
pub proof fn lemma_number_end_bounds(s: Seq<u8>, i: int)
    requires
        0 <= i <= s.len(),
    ensures
        i <= number_end(s, i) <= s.len(),
        number_end(s, i) < s.len() ==> !is_number_byte(s[number_end(s, i)]),
        forall|k: int| i <= k < number_end(s, i) ==> is_number_byte(#[trigger] s[k]),
    decreases s.len() - i,
{
    if i < s.len() && is_number_byte(s[i]) {
        lemma_number_end_bounds(s, i + 1);
    }
}

fn skip_spaces_exec(bytes: &[u8], from: usize) -> (r: usize)
    requires
        from <= bytes.len(),
    ensures
        r == skip_spaces(bytes@, from as int),
        from <= r <= bytes.len(),
{
    let n: usize = bytes.len();
    let mut i: usize = from;
    while i < n && ((9 <= bytes[i] && bytes[i] <= 13) || bytes[i] == 32)
        invariant
            n == bytes.len(),
            from <= i <= n,
            skip_spaces(bytes@, from as int) == skip_spaces(bytes@, i as int),
        decreases n - i,
    {
        i = i + 1;
    }
    i
}

fn number_end_exec(bytes: &[u8], from: usize) -> (r: usize)
    requires
        from <= bytes.len(),
    ensures
        r == number_end(bytes@, from as int),
        from <= r <= bytes.len(),
{
    let n: usize = bytes.len();
    let mut i: usize = from;
    while i < n && !((9 <= bytes[i] && bytes[i] <= 13) || bytes[i] == 32) && bytes[i] != COMMA
        && bytes[i] != SEMICOLON
        invariant
            n == bytes.len(),
            from <= i <= n,
            number_end(bytes@, from as int) == number_end(bytes@, i as int),
        decreases n - i,
    {
        i = i + 1;
    }
    i
}

/// With the entries up to position `i` in hand, the whole text holds them
/// followed by what the rest of the text holds.
pub open spec fn entries_after(
    found: Seq<(Seq<u8>, Seq<u8>)>,
    s: Seq<u8>,
    i: int,
) -> Option<Seq<(Seq<u8>, Seq<u8>)>> {
    match entries_from(s, i) {
        Some(rest) => Some(found + rest),
        None => None,
    }
}

/// Splits a lookup-table text into its entries.
pub fn lookup_entries_of_bytes(bytes: &[u8]) -> (r: Option<Vec<LookupEntry>>)
    ensures
        r.is_some() == table_entries(bytes@).is_some(),
        r.is_some() ==> r.unwrap().deep_view() == table_entries(bytes@).unwrap(),
{
    let n: usize = bytes.len();
    let mut out: Vec<LookupEntry> = Vec::new();
    let mut i: usize = 0;
    assert(Seq::<(Seq<u8>, Seq<u8>)>::empty() + entries_from(bytes@, 0).unwrap() =~= entries_from(
        bytes@,
        0,
    ).unwrap());
    loop
        invariant
            n == bytes.len(),
            i <= n,
            entries_from(bytes@, 0) == entries_after(out.deep_view(), bytes@, i as int),
        decreases n - i,
    {
        let start: usize = skip_spaces_exec(bytes, i);
        if start >= n {
            if out.len() == 0 {
                return None;
            }
            return Some(out);
        }
        let comma: usize = number_end_exec(bytes, start);
        if comma == start || comma >= n || bytes[comma] != COMMA {
            return None;
        }
        let semicolon: usize = number_end_exec(bytes, comma + 1);
        if semicolon == comma + 1 || semicolon >= n || bytes[semicolon] != SEMICOLON {
            return None;
        }
        let x: Vec<u8> = slice_to_vec(slice_subrange(bytes, start, comma));
        let y: Vec<u8> = slice_to_vec(slice_subrange(bytes, comma + 1, semicolon));
        let ghost before = out.deep_view();
        let ghost entry = (x@, y@);
        out.push(LookupEntry { x, y });
        proof {
            let rest = entries_from(bytes@, semicolon + 1);
            if rest.is_some() {
                assert(before + (seq![entry] + rest.unwrap()) =~= before.push(entry)
                    + rest.unwrap());
            }
        }
        i = semicolon + 1;
    }
}

/// Splits a lookup-table text into its entries.
pub fn lookup_entries(text: &str) -> (r: Option<Vec<LookupEntry>>)
    ensures
        r.is_some() == table_entries(text.spec_bytes()).is_some(),
        r.is_some() ==> r.unwrap().deep_view() == table_entries(text.spec_bytes()).unwrap(),
{
    lookup_entries_of_bytes(text.as_bytes())
}

/// What an entry was read as, given what its two numbers were read as: a
/// point if both were read, and else nothing.
pub open spec fn reading_of(x: Option<Scalar>, y: Option<Scalar>) -> Option<Point> {
    if x.is_some() && y.is_some() {
        Some(Point { x: x.unwrap(), y: y.unwrap() })
    } else {
        None
    }
}

/// Puts together what the two numbers of an entry were read as.
pub fn entry_reading(x: Option<Scalar>, y: Option<Scalar>) -> (r: Option<Point>)
    ensures
        r == reading_of(x, y),
{
    match (x, y) {
        (Some(x), Some(y)) => Some(Point { x, y }),
        _ => None,
    }
}

/// Whether every entry was read as a point.
pub open spec fn all_read(readings: Seq<Option<Point>>) -> bool {
    forall|i: int| 0 <= i < readings.len() ==> (#[trigger] readings[i]).is_some()
}

/// The points that the entries were read as.
pub open spec fn points_read(readings: Seq<Option<Point>>) -> Seq<Point> {
    Seq::new(readings.len(), |i: int| readings[i].unwrap())
}

/// The table that the readings of the entries make up: present if and only
/// if there is at least one entry, every entry was read as a point, and `x`
/// strictly increases from each point to the next.
pub open spec fn table_of(readings: Seq<Option<Point>>) -> Option<Seq<Point>> {
    if readings.len() > 0 && all_read(readings) && strictly_increasing(points_read(readings)) {
        Some(points_read(readings))
    } else {
        None
    }
}

/// Makes the lookup table out of what the entries of its text were read as,
/// entry by entry: a point, or nothing where a number was malformed.
pub fn lookup_table(readings: &Vec<Option<Point>>) -> (r: Option<Vec<Point>>)
    ensures
        r.is_some() == table_of(readings@).is_some(),
        r.is_some() ==> r.unwrap()@ == table_of(readings@).unwrap(),
{
    let n: usize = readings.len();
    if n == 0 {
        return None;
    }
    let mut points: Vec<Point> = Vec::new();
    let mut i: usize = 0;
    while i < n
        invariant
            n == readings.len(),
            i <= n,
            all_read(readings@.take(i as int)),
            points@ == points_read(readings@.take(i as int)),
        decreases n - i,
    {
        match readings[i] {
            Some(point) => {
                points.push(point);
            },
            None => {
                return None;
            },
        }
        proof {
            let before = readings@.take(i as int);
            let after = readings@.take(i + 1);
            assert forall|k: int| 0 <= k < after.len() implies (#[trigger] after[k]).is_some() by {
                if k < i {
                    assert(before[k] == after[k]);
                }
            }
            assert(points@ =~= points_read(after));
        }
        i = i + 1;
    }
    assert(readings@.take(n as int) =~= readings@);
    if is_strictly_increasing(&points) {
        Some(points)
    } else {
        None
    }
}

} // verus!
