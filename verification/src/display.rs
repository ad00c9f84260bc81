//! Deterministic layout of a task label for the fixed-width display.
//!
//! The display is 128 pixels wide and the font glyphs are 6 pixels wide, so a
//! row holds a fixed number of characters. A label is split into rows of that
//! width, on character boundaries — never inside a multi-byte encoding — and
//! shown under a fixed heading line.

use vstd::prelude::*;
use vstd::string::*;

verus! {

/// Width of the display in pixels.
pub const DISPLAY_WIDTH_PIXELS: usize = 128;

/// Width of one font glyph in pixels.
pub const FONT_GLYPH_WIDTH_PIXELS: usize = 6;

/// How many characters fit on one display row.
pub const CHARS_PER_ROW: usize = DISPLAY_WIDTH_PIXELS / FONT_GLYPH_WIDTH_PIXELS;

/// `s` split into rows of at most `w` characters, the rows joined by
/// newlines. A text of at most `w` characters stays as it is.
pub open spec fn wrap_rows(s: Seq<char>, w: int) -> Seq<char>
    decreases s.len(),
{
    if w < 1 {
        s
    } else if s.len() <= w {
        s
    } else {
        s.subrange(0, w) + seq!['\n'] + wrap_rows(s.skip(w), w)
    }
}

/// The full text put on the display for a task label: the heading line, then
/// the label wrapped to the display's row width.
pub open spec fn displayed_text(task: Seq<char>) -> Seq<char> {
    "TASK:\n"@ + wrap_rows(task, CHARS_PER_ROW as int)
}

/// Lays a task label out for the display: the heading line, then the label
/// in rows of at most `CHARS_PER_ROW` characters, split on character
/// boundaries.
pub fn format_task_text(task: &str) -> (r: String)
    ensures
        r@ == displayed_text(task@),
{
    let n = task.unicode_len();
    let mut out = String::from_str("TASK:\n");
    let mut i: usize = 0;
    proof {
        assert(task@.skip(0) =~= task@);
    }
    while i < n
        invariant
            i <= n,
            n == task@.len(),
            out@ + wrap_rows(task@.skip(i as int), CHARS_PER_ROW as int) == "TASK:\n"@
                + wrap_rows(task@, CHARS_PER_ROW as int),
        decreases n - i,
    {
        let ghost rest = task@.skip(i as int);
        if n - i <= CHARS_PER_ROW {
            let chunk = task.substring_char(i, n);
            out.append(chunk);
            proof {
                assert(rest =~= chunk@);
                assert(task@.skip(n as int) =~= Seq::<char>::empty());
                assert(wrap_rows(Seq::<char>::empty(), CHARS_PER_ROW as int)
                    == Seq::<char>::empty());
                assert(out@ + Seq::<char>::empty() =~= out@);
            }
            i = n;
        } else {
            let ghost out_before = out@;
            let chunk = task.substring_char(i, i + CHARS_PER_ROW);
            out.append(chunk);
            out.append("\n");
            proof {
                reveal_strlit("\n");
                let w = CHARS_PER_ROW as int;
                assert(rest.subrange(0, w) =~= chunk@);
                assert(rest.skip(w) =~= task@.skip(i + w));
                assert("\n"@ =~= seq!['\n']);
                assert(wrap_rows(rest, w) == rest.subrange(0, w) + seq!['\n'] + wrap_rows(
                    rest.skip(w),
                    w,
                ));
                assert(out@ + wrap_rows(task@.skip(i + w), w) =~= out_before + wrap_rows(rest, w));
            }
            i = i + CHARS_PER_ROW;
        }
    }
    proof {
        assert(task@.skip(n as int) =~= Seq::<char>::empty());
        assert(out@ + Seq::<char>::empty() =~= out@);
    }
    out
}

} // verus!
