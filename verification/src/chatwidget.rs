//! The scrollback viewport: wraps a channel's message history into
//! fixed-width display lines and clips them to the rows the viewport can
//! show, honouring a scroll offset that pages backward through history.
//! Rendering is a pure function of its inputs; painting the returned lines
//! onto the terminal happens outside the library.

use vstd::prelude::*;

use crate::bridge::ChatMessage;

verus! {

/// The full display line of one message: `author: body`.
pub open spec fn message_line(m: ChatMessage) -> Seq<char> {
    m.author@ + ": "@ + m.content@
}

/// A line hard-wrapped into width-character segments, greedily from the
/// front; a long line is split mid-word. An empty line yields no segments,
/// and a width below one yields none either (nothing fits).
pub open spec fn wrap_line(line: Seq<char>, width: int) -> Seq<Seq<char>>
    decreases line.len(),
{
    if width <= 0 || line.len() == 0 {
        seq![]
    } else if line.len() <= width {
        seq![line]
    } else {
        seq![line.subrange(0, width)] + wrap_line(line.subrange(width, line.len() as int), width)
    }
}

/// Every message's wrapped segments, flattened in chronological order.
pub open spec fn wrapped_lines(msgs: Seq<ChatMessage>, width: int) -> Seq<Seq<char>>
    decreases msgs.len(),
{
    if msgs.len() == 0 {
        seq![]
    } else {
        wrapped_lines(msgs.drop_last(), width) + wrap_line(message_line(msgs.last()), width)
    }
}

/// Rows available for message lines: the viewport height minus the two
/// border rows.
pub open spec fn visible_rows(height: int) -> int {
    if height >= 2 {
        height - 2
    } else {
        0
    }
}

/// First line of the visible window `[n - (rows + scroll), n - scroll)`,
/// clamped to `[0, n)`: scroll 0 shows the most recent lines, larger offsets
/// page backward.
pub open spec fn window_lo(n: int, height: int, scroll: int) -> int {
    let lo = n - visible_rows(height) - scroll;
    if lo < 0 {
        0
    } else {
        lo
    }
}

/// One past the last line of the visible window, clamped to `[0, n)`.
pub open spec fn window_hi(n: int, height: int, scroll: int) -> int {
    let hi = n - scroll;
    if hi < 0 {
        0
    } else {
        hi
    }
}

/// What the viewport shows: the visible window of the wrapped history.
pub open spec fn render_lines(msgs: Seq<ChatMessage>, height: int, width: int, scroll: int) -> Seq<
    Seq<char>,
> {
    let lines = wrapped_lines(msgs, width);
    let n = lines.len() as int;
    lines.subrange(window_lo(n, height, scroll), window_hi(n, height, scroll))
}

/// Law: the visible window never holds more lines than the viewport has rows
/// for, and never reaches past the history.
pub proof fn lemma_window_fits(n: int, height: int, scroll: int)
    requires
        n >= 0,
        scroll >= 0,
    ensures
        window_hi(n, height, scroll) - window_lo(n, height, scroll) <= visible_rows(height),
        0 <= window_lo(n, height, scroll) <= window_hi(n, height, scroll) <= n,
{
}

/// Law: paging is monotone. Raising the scroll offset (in particular by a
/// full viewport of lines) never moves the visible window forward: both its
/// bounds only move toward the oldest line, so the oldest line shown only
/// gets older until the window rests at the start of history.
pub proof fn lemma_paging_monotonic(n: int, height: int, s1: int, s2: int)
    requires
        n >= 0,
        0 <= s1 <= s2,
    ensures
        window_lo(n, height, s2) <= window_lo(n, height, s1),
        window_hi(n, height, s2) <= window_hi(n, height, s1),
{
}

/// Hard-wraps one line into width-character segments.
fn wrap_string(line: &str, width: usize) -> (segs: Vec<String>)
    requires
        width >= 1,
    ensures
        segs@.map_values(|s: String| s@) == wrap_line(line@, width as int),
{
    let n = line.unicode_len();
    let mut segs: Vec<String> = Vec::new();
    let mut i: usize = 0;
    proof {
        assert(line@.subrange(0, n as int) =~= line@);
        assert(segs@.map_values(|s: String| s@) + wrap_line(line@, width as int) =~= wrap_line(
            line@,
            width as int,
        ));
    }
    while i < n
        invariant
            width >= 1,
            i <= n,
            n == line@.len(),
            wrap_line(line@, width as int) == segs@.map_values(|s: String| s@) + wrap_line(
                line@.subrange(i as int, n as int),
                width as int,
            ),
        decreases n - i,
    {
        let w = if n - i < width {
            n - i
        } else {
            width
        };
        let chunk = String::from_str(line.substring_char(i, i + w));
        proof {
            let rest = line@.subrange(i as int, n as int);
            assert(chunk@ == rest.subrange(0, w as int));
            if rest.len() > width {
                assert(rest.subrange(width as int, rest.len() as int) =~= line@.subrange(
                    i + width,
                    n as int,
                ));
            } else {
                assert(chunk@ =~= rest);
                assert(line@.subrange((i + w) as int, n as int) =~= Seq::<char>::empty());
            }
            assert(segs@.push(chunk).map_values(|s: String| s@) =~= segs@.map_values(
                |s: String| s@,
            ).push(chunk@));
        }
        segs.push(chunk);
        i = i + w;
    }
    proof {
        assert(line@.subrange(n as int, n as int) =~= Seq::<char>::empty());
        assert(segs@.map_values(|s: String| s@) =~= segs@.map_values(|s: String| s@) + wrap_line(
            line@.subrange(n as int, n as int),
            width as int,
        ));
    }
    segs
}

/// The scrollback viewport widget. It carries only the scroll offset it was
/// given; rendering takes the messages and the grid size as arguments and
/// has no hidden state, so identical inputs always yield identical lines.
pub struct ChatWidget {
    pub scroll: usize,
}

impl ChatWidget {
    /// A viewport showing the most recent lines (scroll offset zero).
    pub fn new() -> (w: ChatWidget)
        ensures
            w.scroll == 0,
    {
        ChatWidget { scroll: 0 }
    }

    /// The same viewport, paged back by the given offset.
    pub fn scroll(self, scroll: usize) -> (w: ChatWidget)
        ensures
            w.scroll == scroll,
    {
        ChatWidget { scroll }
    }

    /// Wraps the messages into `width`-character lines and clips them to the
    /// visible window of a `height`-row viewport (two rows belong to the
    /// border). A width of zero fits nothing and yields no lines.
    pub fn draw(&self, messages: &Vec<ChatMessage>, height: usize, width: usize) -> (lines: Vec<
        String,
    >)
        ensures
            lines@.map_values(|s: String| s@) == render_lines(
                messages@,
                height as int,
                width as int,
                self.scroll as int,
            ),
    {
        let ghost spec_result = render_lines(
            messages@,
            height as int,
            width as int,
            self.scroll as int,
        );
        if width == 0 {
            let lines: Vec<String> = Vec::new();
            proof {
                lemma_wrapped_lines_empty_width(messages@, width as int);
                assert(lines@.map_values(|s: String| s@) =~= spec_result);
            }
            return lines;
        }
        let mut all: Vec<String> = Vec::new();
        let mut mi: usize = 0;
        while mi < messages.len()
            invariant
                width >= 1,
                mi <= messages@.len(),
                all@.map_values(|s: String| s@) == wrapped_lines(
                    messages@.take(mi as int),
                    width as int,
                ),
            decreases messages@.len() - mi,
        {
            let m = &messages[mi];
            let line = String::from_str(m.author.as_str()).concat(": ").concat(m.content.as_str());
            let mut segs = wrap_string(line.as_str(), width);
            proof {
                assert(messages@.take(mi + 1).drop_last() =~= messages@.take(mi as int));
                assert(messages@.take(mi + 1).last() == messages@[mi as int]);
                assert(line@ == message_line(messages@[mi as int]));
                assert((all@ + segs@).map_values(|s: String| s@) =~= all@.map_values(
                    |s: String| s@,
                ) + segs@.map_values(|s: String| s@));
            }
            all.append(&mut segs);
            mi = mi + 1;
        }
        proof {
            assert(messages@.take(messages@.len() as int) =~= messages@);
        }
        let n = all.len();
        let rows = if height >= 2 {
            height - 2
        } else {
            0
        };
        let hi = if self.scroll <= n {
            n - self.scroll
        } else {
            0
        };
        let lo = if rows <= hi {
            hi - rows
        } else {
            0
        };
        let mut lines: Vec<String> = Vec::new();
        let mut j = lo;
        proof {
            assert(lo == window_lo(n as int, height as int, self.scroll as int));
            assert(hi == window_hi(n as int, height as int, self.scroll as int));
        }
        while j < hi
            invariant
                lo <= j <= if hi > lo {
                    hi
                } else {
                    lo
                },
                hi <= n,
                n == all@.len(),
                all@.map_values(|s: String| s@) == wrapped_lines(messages@, width as int),
                lines@.len() == j - lo,
                forall|k: int|
                    0 <= k < lines@.len() ==> lines@[k]@ == all@[lo + k]@,
            decreases hi - j,
        {
            lines.push(all[j].clone());
            j = j + 1;
        }
        proof {
            assert(lines@.map_values(|s: String| s@) =~= spec_result);
        }
        lines
    }
}

/// With no room for even one character, wrapping yields no lines at all.
proof fn lemma_wrapped_lines_empty_width(msgs: Seq<ChatMessage>, width: int)
    requires
        width <= 0,
    ensures
        wrapped_lines(msgs, width).len() == 0,
    decreases msgs.len(),
{
    if msgs.len() > 0 {
        lemma_wrapped_lines_empty_width(msgs.drop_last(), width);
    }
}

} // verus!
