//! The text encodings of a sampled curve.
//!
//! Numbers arrive here already written out, one text per coordinate; this
//! module decides which coordinates appear and what stands between them.

use crate::types::PointScaling;
use vstd::prelude::*;
use vstd::string::*;

verus! {

/// One point with both coordinates written out.
pub struct PointText {
    pub x: String,
    pub y: String,
}

impl View for PointText {
    type V = (Seq<char>, Seq<char>);

    open spec fn view(&self) -> (Seq<char>, Seq<char>) {
        (self.x@, self.y@)
    }
}

impl DeepView for PointText {
    type V = (Seq<char>, Seq<char>);

    open spec fn deep_view(&self) -> (Seq<char>, Seq<char>) {
        (self.x@, self.y@)
    }
}

/// The shapes that exported text can take.
#[derive(Clone, Copy, Debug, PartialEq, Eq, Structural)]
pub enum Encoding {
    /// The whole sequence, each point with its field names.
    Dump,
    /// The `y` values alone, each followed by a space.
    Values,
    /// One line `x,y;` per point.
    Pairs,
}

/// How a number has to be written for an encoding.
#[derive(Clone, Copy, Debug, PartialEq, Eq, Structural)]
pub enum NumberStyle {
    /// The shortest decimal that reads back as the same value.
    Plain,
    /// As `Plain`, but a whole value keeps a trailing `.0`.
    Debug,
}

/// The encoding that a scaling is exported in.
pub open spec fn encoding_of(scaling: PointScaling) -> Encoding {
    match scaling {
        PointScaling::Libinput | PointScaling::LibinputDebug => Encoding::Values,
        PointScaling::LookupVelocity | PointScaling::LookupSens => Encoding::Pairs,
        PointScaling::Sens | PointScaling::Velocity | PointScaling::Gain => Encoding::Dump,
    }
}

/// The `y` texts in order, each followed by one space.
pub open spec fn values_text(points: Seq<(Seq<char>, Seq<char>)>) -> Seq<char>
    decreases points.len(),
{
    if points.len() == 0 {
        Seq::empty()
    } else {
        values_text(points.drop_last()) + points.last().1 + " "@
    }
}

/// One line per point: `x`, a comma, `y`, a semicolon, a line feed.
pub open spec fn pairs_text(points: Seq<(Seq<char>, Seq<char>)>) -> Seq<char>
    decreases points.len(),
{
    if points.len() == 0 {
        Seq::empty()
    } else {
        pairs_text(points.drop_last()) + points.last().0 + ","@ + points.last().1 + ";\n"@
    }
}

/// One point with its field names.
pub open spec fn point_dump(point: (Seq<char>, Seq<char>)) -> Seq<char> {
    "Point { x: "@ + point.0 + ", y: "@ + point.1 + " }"@
}

/// The points with their field names, a comma and a space between neighbours.
pub open spec fn dump_items(points: Seq<(Seq<char>, Seq<char>)>) -> Seq<char>
    decreases points.len(),
{
    if points.len() == 0 {
        Seq::empty()
    } else if points.len() == 1 {
        point_dump(points.last())
    } else {
        dump_items(points.drop_last()) + ", "@ + point_dump(points.last())
    }
}

/// The whole sequence in square brackets.
pub open spec fn dump_text(points: Seq<(Seq<char>, Seq<char>)>) -> Seq<char> {
    "["@ + dump_items(points) + "]"@
}

/// The exported text of the points under a scaling.
pub open spec fn export_text(
    points: Seq<(Seq<char>, Seq<char>)>,
    scaling: PointScaling,
) -> Seq<char> {
    match encoding_of(scaling) {
        Encoding::Values => values_text(points),
        Encoding::Pairs => pairs_text(points),
        Encoding::Dump => dump_text(points),
    }
}

/// The encoding that a scaling is exported in.
pub fn encoding(scaling: PointScaling) -> (r: Encoding)
    ensures
        r == encoding_of(scaling),
{
    match scaling {
        PointScaling::Libinput | PointScaling::LibinputDebug => Encoding::Values,
        PointScaling::LookupVelocity | PointScaling::LookupSens => Encoding::Pairs,
        PointScaling::Sens | PointScaling::Velocity | PointScaling::Gain => Encoding::Dump,
    }
}

/// How the numbers of an export under a scaling have to be written: in the
/// debug style for the dump, plainly otherwise.
pub fn number_style(scaling: PointScaling) -> (r: NumberStyle)
    ensures
        r == (if encoding_of(scaling) == Encoding::Dump {
            NumberStyle::Debug
        } else {
            NumberStyle::Plain
        }),
{
    match encoding(scaling) {
        Encoding::Dump => NumberStyle::Debug,
        _ => NumberStyle::Plain,
    }
}

fn format_values(points: &Vec<PointText>) -> (r: String)
    ensures
        r@ == values_text(points.deep_view()),
{
    let ghost all = points.deep_view();
    let mut out: String = String::new();
    let n: usize = points.len();
    let mut i: usize = 0;
    while i < n
        invariant
            n == points.len(),
            i <= n,
            all == points.deep_view(),
            out@ == values_text(all.take(i as int)),
        decreases n - i,
    {
        proof {
            assert(all.take(i + 1).drop_last() =~= all.take(i as int));
        }
        out.append(points[i].y.as_str());
        out.append(" ");
        i = i + 1;
    }
    assert(all.take(n as int) =~= all);
    out
}

fn format_pairs(points: &Vec<PointText>) -> (r: String)
    ensures
        r@ == pairs_text(points.deep_view()),
{
    let ghost all = points.deep_view();
    let mut out: String = String::new();
    let n: usize = points.len();
    let mut i: usize = 0;
    while i < n
        invariant
            n == points.len(),
            i <= n,
            all == points.deep_view(),
            out@ == pairs_text(all.take(i as int)),
        decreases n - i,
    {
        proof {
            assert(all.take(i + 1).drop_last() =~= all.take(i as int));
        }
        out.append(points[i].x.as_str());
        out.append(",");
        out.append(points[i].y.as_str());
        out.append(";\n");
        i = i + 1;
    }
    assert(all.take(n as int) =~= all);
    out
}

fn format_dump(points: &Vec<PointText>) -> (r: String)
    ensures
        r@ == dump_text(points.deep_view()),
{
    let ghost all = points.deep_view();
    let mut out: String = String::from_str("[");
    let n: usize = points.len();
    let mut i: usize = 0;
    while i < n
        invariant
            n == points.len(),
            i <= n,
            all == points.deep_view(),
            out@ == "["@ + dump_items(all.take(i as int)),
        decreases n - i,
    {
        proof {
            assert(all.take(i + 1).drop_last() =~= all.take(i as int));
        }
        if i > 0 {
            out.append(", ");
        }
        out.append("Point { x: ");
        out.append(points[i].x.as_str());
        out.append(", y: ");
        out.append(points[i].y.as_str());
        out.append(" }");
        i = i + 1;
    }
    assert(all.take(n as int) =~= all);
    out.append("]");
    out
}

/// Writes the points out in the encoding of the scaling. The numbers are
/// taken as written in `points`.
pub fn format_points(points: &Vec<PointText>, scaling: PointScaling) -> (r: String)
    ensures
        r@ == export_text(points.deep_view(), scaling),
{
    match encoding(scaling) {
        Encoding::Values => format_values(points),
        Encoding::Pairs => format_pairs(points),
        Encoding::Dump => format_dump(points),
    }
}

} // verus!
