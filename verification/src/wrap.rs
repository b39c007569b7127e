//! Greedy word-wrap layout engine.
//!
//! A logical line is decomposed into visual chunks of at most
//! `max_chars` characters. Each chunk ends at the last whitespace inside the
//! window when one exists, else hard-breaks mid-word; the remainder of the
//! line fits whenever the window reaches the end. The decomposition is a pure
//! function of the characters and the wrap width.

use vstd::prelude::*;
use crate::line::Line;
use crate::text::{char_is_white, is_white};

verus! {

/// Index one past the last character that the window starting at `start`
/// can hold: `start + max` capped at the end of the line.
pub open spec fn wrap_window_end(s: Seq<char>, start: int, max: int) -> int {
    if start + max < s.len() {
        start + max
    } else {
        s.len() as int
    }
}

/// The largest index in `[start, end)` holding whitespace, or -1 if none.
pub open spec fn last_white_in(s: Seq<char>, start: int, end: int) -> int
    decreases end - start,
{
    if end <= start {
        -1
    } else if is_white(s[end - 1]) {
        end - 1
    } else {
        last_white_in(s, start, end - 1)
    }
}

/// Where the visual chunk that starts at `start` ends: the window end when
/// the rest of the line fits (or the window is empty), one past the last
/// whitespace inside the window when there is one, else the window end
/// (hard mid-word break).
pub open spec fn wrap_pos(s: Seq<char>, start: int, max: int) -> int {
    let end = wrap_window_end(s, start, max);
    if start >= end || end == s.len() {
        end
    } else if last_white_in(s, start, end) >= 0 {
        last_white_in(s, start, end) + 1
    } else {
        end
    }
}

/// Number of visual chunks from `pos` to the end of the line.
pub open spec fn chunks_from(s: Seq<char>, max: int, pos: int) -> int
    decreases s.len() - pos,
{
    if pos < 0 || pos >= s.len() {
        0
    } else {
        let w = wrap_pos(s, pos, max);
        if pos < w <= s.len() {
            1 + chunks_from(s, max, w)
        } else {
            1
        }
    }
}

/// Number of visual lines a logical line occupies: an empty line still
/// occupies one visual row.
pub open spec fn visual_lines_of(s: Seq<char>, max: int) -> int {
    if s.len() == 0 {
        1
    } else {
        chunks_from(s, max, 0)
    }
}

/// The visual row (within the logical line) that offset `hpos` falls on,
/// counted from the walk position `pos`: one wrap boundary crossed per step,
/// stopping at the chunk whose window reaches `hpos`.
pub open spec fn visual_row_from(s: Seq<char>, max: int, hpos: int, pos: int) -> int
    decreases hpos - pos,
{
    if pos >= hpos {
        0
    } else {
        let w = wrap_pos(s, pos, max);
        if w >= hpos || w <= pos {
            0
        } else {
            1 + visual_row_from(s, max, hpos, w)
        }
    }
}

/// The start offset of the visual row that `hpos` falls on, walking from `pos`.
pub open spec fn row_base_from(s: Seq<char>, max: int, hpos: int, pos: int) -> int
    decreases hpos - pos,
{
    if pos >= hpos {
        pos
    } else {
        let w = wrap_pos(s, pos, max);
        if w >= hpos || w <= pos {
            pos
        } else {
            row_base_from(s, max, hpos, w)
        }
    }
}

/// The start offset of visual row `k`, walking `k` wrap steps from `pos`
/// (staying put once the end of the line is reached).
pub open spec fn row_start_from(s: Seq<char>, max: int, k: int, pos: int) -> int
    decreases k,
{
    if k <= 0 {
        pos
    } else {
        let p = row_start_from(s, max, k - 1, pos);
        if 0 <= p < s.len() {
            wrap_pos(s, p, max)
        } else {
            p
        }
    }
}

/// `last_white_in` names a whitespace index inside the range, or -1 exactly
/// when the range holds no whitespace; nothing after it is whitespace.
pub proof fn lemma_last_white_in(s: Seq<char>, start: int, end: int)
    ensures
        last_white_in(s, start, end) == -1 || (start <= last_white_in(s, start, end) < end
            && is_white(s[last_white_in(s, start, end)])),
        forall|j: int|
            start <= j < end && j > last_white_in(s, start, end) ==> !is_white(s[j]),
    decreases end - start,
{
    if end > start && !is_white(s[end - 1]) {
        lemma_last_white_in(s, start, end - 1);
    }
}

/// A wrap position never runs past the end of the line, nor before the
/// chunk's own start.
pub proof fn lemma_wrap_pos_bounds(s: Seq<char>, start: int, max: int)
    requires
        0 <= start <= s.len(),
        max >= 0,
    ensures
        start <= wrap_pos(s, start, max) <= s.len(),
{
    lemma_last_white_in(s, start, wrap_window_end(s, start, max));
}

/// Wrap progress: a chunk that starts before the end of the line always ends
/// strictly after its start, so the decomposition advances.
pub proof fn lemma_wrap_pos_progress(s: Seq<char>, start: int, max: int)
    requires
        0 <= start < s.len(),
        max >= 1,
    ensures
        start < wrap_pos(s, start, max) <= s.len(),
{
    lemma_last_white_in(s, start, wrap_window_end(s, start, max));
}

/// A line decomposes into at least one and at most one-chunk-per-character
/// visual chunks.
pub proof fn lemma_chunks_from_bounds(s: Seq<char>, max: int, pos: int)
    requires
        max >= 1,
        0 <= pos <= s.len(),
    ensures
        pos < s.len() ==> 1 <= chunks_from(s, max, pos) <= s.len() - pos,
        pos == s.len() ==> chunks_from(s, max, pos) == 0,
    decreases s.len() - pos,
{
    if pos < s.len() {
        lemma_wrap_pos_progress(s, pos, max);
        lemma_chunks_from_bounds(s, max, wrap_pos(s, pos, max));
    }
}

/// Every logical line occupies at least one visual line.
pub proof fn lemma_visual_lines_at_least_one(s: Seq<char>, max: int)
    requires
        max >= 1,
    ensures
        1 <= visual_lines_of(s, max) <= if s.len() == 0 { 1int } else { s.len() as int },
{
    if s.len() > 0 {
        lemma_chunks_from_bounds(s, max, 0);
    }
}

/// Walking `k` rows from `pos` is one wrap step, then `k - 1` rows.
pub proof fn lemma_row_start_shift(s: Seq<char>, max: int, k: int, pos: int)
    requires
        k >= 1,
        0 <= pos < s.len(),
    ensures
        row_start_from(s, max, k, pos) == row_start_from(s, max, k - 1, wrap_pos(s, pos, max)),
    decreases k,
{
    let w = wrap_pos(s, pos, max);
    if k == 1 {
        assert(row_start_from(s, max, 0, pos) == pos);
        assert(row_start_from(s, max, 0, w) == w);
    } else {
        lemma_row_start_shift(s, max, k - 1, pos);
        assert(row_start_from(s, max, k - 1, pos) == row_start_from(s, max, k - 2, w));
        assert(row_start_from(s, max, k, pos) == ({
            let p = row_start_from(s, max, k - 1, pos);
            if 0 <= p < s.len() {
                wrap_pos(s, p, max)
            } else {
                p
            }
        }));
        assert(row_start_from(s, max, k - 1, w) == ({
            let p = row_start_from(s, max, k - 2, w);
            if 0 <= p < s.len() {
                wrap_pos(s, p, max)
            } else {
                p
            }
        }));
    }
}

/// Once a walk has reached the end of the line it stays there.
pub proof fn lemma_row_start_stable(s: Seq<char>, max: int, j: int, k: int, pos: int)
    requires
        0 <= j <= k,
        row_start_from(s, max, j, pos) >= s.len(),
    ensures
        row_start_from(s, max, k, pos) == row_start_from(s, max, j, pos),
    decreases k - j,
{
    if k > j {
        lemma_row_start_stable(s, max, j, k - 1, pos);
    }
}

/// The chunk base that `visual_row_from`/`row_base_from` find is exactly the
/// start of visual row number `visual_row_from(..)`, and lies before `hpos`
/// whenever at least one boundary was crossed.
pub proof fn lemma_rows_of_visual(s: Seq<char>, max: int, hpos: int, pos: int)
    requires
        max >= 1,
        0 <= pos <= hpos <= s.len(),
    ensures
        ({
            let k = visual_row_from(s, max, hpos, pos);
            let b = row_base_from(s, max, hpos, pos);
            &&& 0 <= k
            &&& pos <= b <= hpos
            &&& b == row_start_from(s, max, k, pos)
            &&& (k > 0 ==> b < hpos)
        }),
    decreases hpos - pos,
{
    if pos < hpos {
        let w = wrap_pos(s, pos, max);
        lemma_wrap_pos_progress(s, pos, max);
        if w < hpos && w > pos {
            lemma_rows_of_visual(s, max, hpos, w);
            let k = visual_row_from(s, max, hpos, pos);
            lemma_row_start_shift(s, max, k, pos);
        }
    }
}

/// Each visual row before the last one starts strictly inside the line.
pub proof fn lemma_row_start_in_range(s: Seq<char>, max: int, pos: int, j: int)
    requires
        max >= 1,
        0 <= pos <= s.len(),
        0 <= j < chunks_from(s, max, pos),
    ensures
        pos <= row_start_from(s, max, j, pos) < s.len(),
    decreases j,
{
    if j == 0 {
    } else {
        let w = wrap_pos(s, pos, max);
        lemma_wrap_pos_progress(s, pos, max);
        lemma_row_start_in_range(s, max, w, j - 1);
        lemma_row_start_shift(s, max, j, pos);
    }
}

/// Wrapping is deterministic: it depends on the characters and the wrap
/// width alone, so recomputing on unchanged inputs yields the identical
/// decomposition.
pub proof fn lemma_wrap_deterministic(a: Line, b: Line, max: int)
    requires
        a.content@ == b.content@,
    ensures
        visual_lines_of(a.content@, max) == visual_lines_of(b.content@, max),
        forall|start: int|
            wrap_pos(a.content@, start, max) == wrap_pos(b.content@, start, max),
{
}

/// Where the visual chunk beginning at `start` ends: after the last
/// whitespace inside the window when a further chunk must follow, else at
/// the window end. Returns `start < r` whenever `start` is inside the line
/// and the window holds at least one character (wrap progress).
pub fn find_wrap_position(line: &Line, start: usize, max_chars: usize) -> (r: usize)
    ensures
        r == wrap_pos(line.content@, start as int, max_chars as int),
        r <= line.content@.len(),
        start < line.content@.len() && max_chars >= 1 ==> start < r,
{
    let ghost s = line.content@;
    let len = line.content.len();
    proof {
        if start as int <= s.len() {
            lemma_wrap_pos_bounds(s, start as int, max_chars as int);
        }
        if (start as int) < s.len() && max_chars >= 1 {
            lemma_wrap_pos_progress(s, start as int, max_chars as int);
        }
    }
    if start >= len {
        return len;
    }
    let end = if max_chars < len - start {
        start + max_chars
    } else {
        len
    };
    if start >= end || end == len {
        return end;
    }
    let mut i: usize = end;
    while i > start
        invariant
            start <= i <= end,
            end == wrap_window_end(s, start as int, max_chars as int),
            start < end < s.len(),
            s == line.content@,
            last_white_in(s, start as int, end as int) == last_white_in(s, start as int, i as int),
        decreases i,
    {
        if char_is_white(line.content[i - 1]) {
            proof {
                lemma_last_white_in(s, start as int, end as int);
            }
            return i;
        }
        i = i - 1;
    }
    end
}

/// How many visual lines the logical line occupies under the given wrap
/// width; an empty line occupies exactly one.
pub fn calculate_visual_lines(line: &Line, max_chars: usize) -> (n: usize)
    requires
        max_chars >= 1,
    ensures
        n == visual_lines_of(line.content@, max_chars as int),
        n >= 1,
{
    let ghost s = line.content@;
    let ghost max = max_chars as int;
    proof {
        lemma_visual_lines_at_least_one(s, max);
    }
    let len = line.content.len();
    if len == 0 {
        return 1;
    }
    let mut n: usize = 0;
    let mut pos: usize = 0;
    while pos < len
        invariant
            max_chars >= 1,
            pos <= len,
            n <= pos,
            len == s.len(),
            s == line.content@,
            max == max_chars as int,
            chunks_from(s, max, 0) == n + chunks_from(s, max, pos as int),
        decreases len - pos,
    {
        proof {
            lemma_wrap_pos_progress(s, pos as int, max);
        }
        let w = find_wrap_position(line, pos, max_chars);
        pos = w;
        n = n + 1;
    }
    n
}

/// Maps the logical offset `hpos` to `(visual row within the line, column
/// within that row)` under the given wrap width; an empty line maps
/// everything to the origin.
pub fn logical_to_visual_position(line: &Line, hpos: usize, max_chars: usize) -> (r: (
    usize,
    usize,
))
    ensures
        line.content@.len() == 0 ==> r == (0usize, 0usize),
        line.content@.len() > 0 ==> {
            &&& r.0 == visual_row_from(line.content@, max_chars as int, hpos as int, 0)
            &&& r.1 == hpos - row_base_from(line.content@, max_chars as int, hpos as int, 0)
        },
{
    let ghost s = line.content@;
    let ghost max = max_chars as int;
    if line.content.len() == 0 {
        return (0, 0);
    }
    let mut visual_line: usize = 0;
    let mut pos: usize = 0;
    while pos < hpos
        invariant
            pos <= hpos,
            s == line.content@,
            max == max_chars as int,
            visual_row_from(s, max, hpos as int, 0) == visual_line + visual_row_from(
                s,
                max,
                hpos as int,
                pos as int,
            ),
            row_base_from(s, max, hpos as int, 0) == row_base_from(s, max, hpos as int, pos as int),
            visual_line <= pos,
        ensures
            visual_line == visual_row_from(s, max, hpos as int, 0),
            pos == row_base_from(s, max, hpos as int, 0),
            pos <= hpos,
        decreases hpos - pos,
    {
        let w = find_wrap_position(line, pos, max_chars);
        if w >= hpos || w <= pos {
            break;
        }
        pos = w;
        visual_line = visual_line + 1;
    }
    (visual_line, hpos - pos)
}

/// Walks `target` wrap steps from the start of the line, stopping early at
/// the end of the line: the start offset of visual row `target`.
pub fn walk_to_row(line: &Line, target: usize, max_chars: usize) -> (pos: usize)
    requires
        max_chars >= 1,
    ensures
        pos as int == row_start_from(line.content@, max_chars as int, target as int, 0),
        pos <= line.content@.len(),
{
    let ghost s = line.content@;
    let ghost max = max_chars as int;
    let len = line.content.len();
    let mut pos: usize = 0;
    let mut cv: usize = 0;
    while cv < target && pos < len
        invariant
            cv <= target,
            pos <= len,
            len == s.len(),
            s == line.content@,
            max == max_chars as int,
            max_chars >= 1,
            pos as int == row_start_from(s, max, cv as int, 0),
        decreases target - cv,
    {
        proof {
            lemma_wrap_pos_progress(s, pos as int, max);
        }
        pos = find_wrap_position(line, pos, max_chars);
        cv = cv + 1;
    }
    proof {
        if cv < target {
            lemma_row_start_stable(s, max, cv as int, target as int, 0);
        }
    }
    pos
}

} // verus!
