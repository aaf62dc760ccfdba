//! Cutting the native library's pending messages into lines.
//!
//! The native library collects its error and information messages in
//! two text buffers. What is read out of them is cut at line feeds and
//! handed on line by line, each with the level of the buffer it came
//! from.

use vstd::prelude::*;
use vstd::slice::{slice_subrange, slice_to_vec};

verus! {

/// The byte that ends a line.
pub const LINE_FEED: u8 = 10;

/// The byte that may stand before a line feed and then belongs to the
/// line ending.
pub const CARRIAGE_RETURN: u8 = 13;

/// How grave a line of diagnostics is.
#[derive(Debug, Clone, Copy, PartialEq, Eq, Structural)]
pub enum Level {
    /// A line of the error buffer.
    Error,
    /// A line of the message buffer.
    Info,
}

/// One line of the native library's messages.
#[derive(Debug)]
pub struct Diagnostic {
    /// The buffer that the line came from.
    pub level: Level,
    /// The line's bytes, without its line ending.
    pub line: Vec<u8>,
}

impl View for Diagnostic {
    type V = (Level, Seq<u8>);

    open spec fn view(&self) -> (Level, Seq<u8>) {
        (self.level, self.line@)
    }
}

/// The number of bytes before the first line feed of `text`, or the
/// length of `text` where it holds none.
pub open spec fn line_end(text: Seq<u8>) -> nat
    decreases text.len(),
{
    if text.len() == 0 || text[0] == LINE_FEED {
        0
    } else {
        1 + line_end(text.skip(1))
    }
}

/// A line without the carriage return that stood before its line feed.
pub open spec fn strip_carriage_return(line: Seq<u8>) -> Seq<u8> {
    if line.len() > 0 && line.last() == CARRIAGE_RETURN {
        line.drop_last()
    } else {
        line
    }
}

/// The lines of `text`. A line ends at a line feed, or at a carriage
/// return followed by a line feed; the ending is not part of the line.
/// What follows the last line feed is a line of its own if it is not
/// empty, and keeps a carriage return at its end.
pub open spec fn lines(text: Seq<u8>) -> Seq<Seq<u8>>
    decreases text.len(),
{
    if text.len() == 0 {
        Seq::empty()
    } else {
        let end = line_end(text);
        if end >= text.len() {
            seq![text]
        } else {
            seq![strip_carriage_return(text.subrange(0, end as int))] + lines(
                text.skip(end as int + 1),
            )
        }
    }
}

/// Each line with the level it is reported at.
pub open spec fn tagged(level: Level, lines: Seq<Seq<u8>>) -> Seq<(Level, Seq<u8>)> {
    lines.map_values(|line: Seq<u8>| (level, line))
}

/// The diagnostics as levels and lines.
pub open spec fn diagnostics_view(diagnostics: Seq<Diagnostic>) -> Seq<(Level, Seq<u8>)> {
    diagnostics.map_values(|d: Diagnostic| d@)
}

/// The lines of a buffer that may be absent.
pub open spec fn buffer_lines(buffer: Option<&[u8]>) -> Seq<Seq<u8>> {
    match buffer {
        Some(text) => lines(text@),
        None => Seq::empty(),
    }
}

/// Where `end` is the first line feed of `text`, or its length and no
/// line feed stands before it, `line_end` is `end`.
pub proof fn lemma_line_end_is_first_line_feed(text: Seq<u8>, end: int)
    requires
        0 <= end <= text.len(),
        forall|j: int| 0 <= j < end ==> text[j] != LINE_FEED,
        end < text.len() ==> text[end] == LINE_FEED,
    ensures
        line_end(text) == end,
    decreases end,
{
    if end > 0 {
        let rest = text.skip(1);
        assert forall|j: int| 0 <= j < end - 1 implies rest[j] != LINE_FEED by {
            assert(rest[j] == text[j + 1]);
        }
        lemma_line_end_is_first_line_feed(rest, end - 1);
    }
}

/// No line holds a line feed.
pub proof fn lemma_lines_hold_no_line_feed(text: Seq<u8>, i: int, j: int)
    requires
        0 <= i < lines(text).len(),
        0 <= j < lines(text)[i].len(),
    ensures
        lines(text)[i][j] != LINE_FEED,
    decreases text.len(),
{
    let end = line_end(text);
    lemma_line_end_bounds(text);
    if end >= text.len() {
    } else if i == 0 {
        let head = text.subrange(0, end as int);
        assert(strip_carriage_return(head)[j] == head[j]);
        assert(head[j] == text[j]);
    } else {
        lemma_lines_hold_no_line_feed(text.skip(end as int + 1), i - 1, j);
    }
}

/// `line_end` stays within the text, stands on a line feed where it is
/// not the text's length, and no line feed stands before it.
pub proof fn lemma_line_end_bounds(text: Seq<u8>)
    ensures
        line_end(text) <= text.len(),
        line_end(text) < text.len() ==> text[line_end(text) as int] == LINE_FEED,
        forall|j: int| 0 <= j < line_end(text) ==> text[j] != LINE_FEED,
    decreases text.len(),
{
    if text.len() == 0 || text[0] == LINE_FEED {
    } else {
        let rest = text.skip(1);
        lemma_line_end_bounds(rest);
        assert forall|j: int| 0 <= j < line_end(text) implies text[j] != LINE_FEED by {
            if j > 0 {
                assert(text[j] == rest[j - 1]);
            }
        }
    }
}

/// Appends the lines of `text` to `out`, each at `level`, in the order
/// in which they stand in `text`.
pub fn append_lines(text: &[u8], level: Level, out: &mut Vec<Diagnostic>)
    ensures
        diagnostics_view(final(out)@) == diagnostics_view(old(out)@) + tagged(level, lines(text@)),
{
    let ghost before = diagnostics_view(out@);
    let ghost whole = tagged(level, lines(text@));
    let mut start: usize = 0;
    assert(text@.skip(0) =~= text@);
    while start < text.len()
        invariant
            start <= text.len(),
            whole == tagged(level, lines(text@)),
            diagnostics_view(out@) + tagged(level, lines(text@.skip(start as int))) == before
                + whole,
        decreases text.len() - start,
    {
        let ghost rest = text@.skip(start as int);
        let ghost done = diagnostics_view(out@);
        let mut end: usize = start;
        while end < text.len() && text[end] != LINE_FEED
            invariant
                start <= end <= text.len(),
                forall|j: int| start <= j < end ==> text@[j] != LINE_FEED,
            decreases text.len() - end,
        {
            end += 1;
        }
        proof {
            assert forall|j: int| 0 <= j < end - start implies rest[j] != LINE_FEED by {
                assert(rest[j] == text@[start + j]);
            }
            lemma_line_end_is_first_line_feed(rest, end - start);
        }
        let stop: usize = if end < text.len() && end > start && text[end - 1] == CARRIAGE_RETURN {
            end - 1
        } else {
            end
        };
        let line = slice_to_vec(slice_subrange(text, start, stop));
        let next: usize = if end < text.len() {
            end + 1
        } else {
            end
        };
        proof {
            let head = rest.subrange(0, end - start);
            assert(head =~= text@.subrange(start as int, end as int));
            if end < text.len() {
                assert(line@ =~= strip_carriage_return(head));
                assert(rest.skip(end - start + 1) =~= text@.skip(next as int));
                assert(lines(rest) == seq![line@] + lines(text@.skip(next as int)));
            } else {
                assert(line@ =~= rest);
                assert(text@.skip(next as int).len() == 0);
                assert(lines(rest) =~= seq![line@] + lines(text@.skip(next as int)));
            }
        }
        out.push(Diagnostic { level, line });
        proof {
            let tail = lines(text@.skip(next as int));
            assert(diagnostics_view(out@) =~= done.push((level, line@)));
            assert(tagged(level, seq![line@] + tail) =~= seq![(level, line@)] + tagged(
                level,
                tail,
            ));
            assert(done.push((level, line@)) + tagged(level, tail) =~= done + tagged(
                level,
                lines(rest),
            ));
        }
        start = next;
    }
    proof {
        assert(text@.skip(start as int).len() == 0);
        assert(diagnostics_view(out@) + tagged(level, lines(text@.skip(start as int)))
            =~= diagnostics_view(out@));
    }
}

} // verus!
