//! Rendering of the lamp counts as a five-row textual diagram.

use crate::clock::{clock_of, Clock};
use crate::time::Instant;
use vstd::prelude::*;

verus! {

/// The character of one lamp: its colour when lit, `'0'` when unlit.
pub open spec fn lit_char(condition: bool, color: char) -> char {
    if condition {
        color
    } else {
        '0'
    }
}

/// A row of `length` lamps, the first `max` of them lit in `color`.
pub open spec fn row_chars(max: int, length: int, color: char) -> Seq<char> {
    Seq::new(length as nat, |i: int| lit_char(i < max, color))
}

/// The colour a five-minute lamp would show when lit: every third lamp marks
/// a quarter hour and is red, the rest are yellow.
pub open spec fn quarter_color(i: int) -> char {
    if i % 3 == 2 {
        'R'
    } else {
        'Y'
    }
}

/// The eleven-lamp five-minute row with the first `max` lamps lit.
pub open spec fn quarter_row_chars(max: int) -> Seq<char> {
    Seq::new(11, |i: int| lit_char(i < max, quarter_color(i)))
}

/// The full diagram: the five rows joined by single newlines, with no
/// trailing newline.
pub open spec fn render_chars(c: Clock) -> Seq<char> {
    seq![lit_char(c.even_seconds, 'R'), '\n'] + row_chars(c.five_hours as int, 4, 'R')
        + seq!['\n'] + row_chars(c.one_hours as int, 4, 'R') + seq!['\n']
        + quarter_row_chars(c.five_minutes as int) + seq!['\n']
        + row_chars(c.one_minutes as int, 4, 'Y')
}

/// Relies on `String::push`: appends the given character to the end of the
/// string.
#[verifier::external_body]
fn push_char(s: &mut String, c: char)
    ensures
        final(s)@ == old(s)@.push(c),
{
    s.push(c)
}

/// One lamp's character: the colour when the condition holds, unlit otherwise.
pub fn colorize(condition: bool, color: char) -> (c: char)
    ensures
        c == lit_char(condition, color),
{
    if condition {
        color
    } else {
        '0'
    }
}

/// Renders one row: `length` lamps, the first `max` lit in `color`.
pub fn range(max: u8, length: u8, color: char) -> (r: String)
    ensures
        r@ == row_chars(max as int, length as int, color),
{
    let mut out = String::new();
    let mut idx: u8 = 0;
    while idx < length
        invariant
            idx <= length,
            out@ == row_chars(max as int, idx as int, color),
        decreases length - idx,
    {
        push_char(&mut out, colorize(idx < max, color));
        idx = idx + 1;
        proof {
            assert(out@ =~= row_chars(max as int, idx as int, color));
        }
    }
    out
}

/// Renders the five-minute row, whose colours alternate by position.
fn quarter_row(max: u8) -> (r: String)
    ensures
        r@ == quarter_row_chars(max as int),
{
    let mut out = String::new();
    let mut idx: u8 = 0;
    while idx < 11
        invariant
            idx <= 11,
            out@ == quarter_row_chars(max as int).take(idx as int),
        decreases 11 - idx,
    {
        let color = if idx % 3 == 2 {
            'R'
        } else {
            'Y'
        };
        push_char(&mut out, colorize(idx < max, color));
        idx = idx + 1;
        proof {
            assert(out@ =~= quarter_row_chars(max as int).take(idx as int));
        }
    }
    proof {
        assert(out@ =~= quarter_row_chars(max as int));
    }
    out
}

/// The five rows of the diagram, in rendering order, before they are joined
/// by newlines.
pub open spec fn lines_of(c: Clock) -> Seq<Seq<char>> {
    seq![
        seq![lit_char(c.even_seconds, 'R')],
        row_chars(c.five_hours as int, 4, 'R'),
        row_chars(c.one_hours as int, 4, 'R'),
        quarter_row_chars(c.five_minutes as int),
        row_chars(c.one_minutes as int, 4, 'Y'),
    ]
}

/// Determinism of the whole pipeline: equal times decompose to equal lamp
/// counts and render to the same characters, so two runs on one input give
/// byte-identical output.
pub proof fn lemma_deterministic(t1: Instant, t2: Instant)
    requires
        t1 == t2,
    ensures
        clock_of(t1) == clock_of(t2),
        render_chars(clock_of(t1)) == render_chars(clock_of(t2)),
{
}

/// Row structure: the diagram is its five rows joined by single newlines,
/// the rows have lengths 1, 4, 4, 11 and 4, and no row contains a newline,
/// so the rendering always splits back into exactly those five lines.
pub proof fn lemma_row_structure(c: Clock)
    ensures
        lines_of(c).len() == 5,
        lines_of(c)[0].len() == 1,
        lines_of(c)[1].len() == 4,
        lines_of(c)[2].len() == 4,
        lines_of(c)[3].len() == 11,
        lines_of(c)[4].len() == 4,
        render_chars(c) == lines_of(c)[0] + seq!['\n'] + lines_of(c)[1] + seq!['\n']
            + lines_of(c)[2] + seq!['\n'] + lines_of(c)[3] + seq!['\n'] + lines_of(c)[4],
        forall|r: int, i: int|
            0 <= r < 5 && 0 <= i < lines_of(c)[r].len() ==> lines_of(c)[r][i] != '\n',
{
    assert(render_chars(c) =~= lines_of(c)[0] + seq!['\n'] + lines_of(c)[1] + seq!['\n']
        + lines_of(c)[2] + seq!['\n'] + lines_of(c)[3] + seq!['\n'] + lines_of(c)[4]);
    assert forall|r: int, i: int|
        0 <= r < 5 && 0 <= i < lines_of(c)[r].len() implies lines_of(c)[r][i] != '\n' by {
        assert(lines_of(c)[r][i] == 'R' || lines_of(c)[r][i] == 'Y' || lines_of(c)[r][i] == '0');
    }
}

/// Left-fill: in every row, lamps are lit from the left with no gaps — once
/// a position is unlit, every later position in that row is unlit too.
pub proof fn lemma_left_fill(c: Clock, r: int, i: int, j: int)
    requires
        0 <= r < 5,
        0 <= i < j < lines_of(c)[r].len(),
        lines_of(c)[r][i] == '0',
    ensures
        lines_of(c)[r][j] == '0',
{
}

impl Clock {
    /// Renders the lamp diagram described by `render_chars`: the seconds
    /// lamp, the two hour rows, the five-minute row and the one-minute row,
    /// one per line.
    pub fn render(&self) -> (r: String)
        ensures
            r@ == render_chars(*self),
    {
        let mut out = String::new();
        push_char(&mut out, colorize(self.even_seconds, 'R'));
        push_char(&mut out, '\n');
        out.append(range(self.five_hours, 4, 'R').as_str());
        push_char(&mut out, '\n');
        out.append(range(self.one_hours, 4, 'R').as_str());
        push_char(&mut out, '\n');
        out.append(quarter_row(self.five_minutes).as_str());
        push_char(&mut out, '\n');
        out.append(range(self.one_minutes, 4, 'Y').as_str());
        proof {
            assert(out@ =~= render_chars(*self));
        }
        out
    }
}

} // verus!
