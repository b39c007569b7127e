//! The editor state: the document buffer, the cursor, the viewport metrics,
//! and the cached word and character counts.
//!
//! The buffer always holds at least one line, every line's style arrays stay
//! aligned with its content, and the cursor always rests on a valid position
//! (`wf`). Lengths are in tenths of a pixel throughout.

use vstd::prelude::*;
use crate::clip::{cap_u64, cap_usize, sat_add_usize};
use crate::line::Line;
use crate::text::word_tally;
use crate::text::count_words;
use crate::wrap::visual_lines_of;
use crate::wrap::visual_row_from;
use crate::wrap::calculate_visual_lines;

verus! {

/// Horizontal padding of the text area: 10 pixels on each side, in tenths.
pub const SIDE_PADDING: u64 = 200;

/// The mutable heart of the editor: document, cursor, viewport and caches.
#[derive(Debug)]
pub struct TextEditorState {
    /// The document: always at least one line.
    pub lines: Vec<Line>,
    /// Char offset of the cursor within its line, `0..=line len`.
    pub cursor_hpos: usize,
    /// Index of the cursor's line, `0..line count`.
    pub cursor_vpos: usize,
    /// Whether the blinking cursor is currently shown.
    pub cursor_visible: bool,
    /// Font identity applied to newly typed characters.
    pub default_font: u32,
    /// Font size applied to newly typed characters, tenths of a pixel.
    pub default_font_size: u32,
    /// Advance width of one character cell, tenths of a pixel, at least 1.
    pub char_width: u64,
    /// Height of one visual line, tenths of a pixel, at least 1.
    pub line_height: u64,
    /// Vertical scroll offset, tenths of a pixel.
    pub scroll_offset_y: u64,
    /// Viewport height, tenths of a pixel.
    pub viewport_height: u64,
    /// Viewport width, tenths of a pixel.
    pub viewport_width: u64,
    /// Word count, recomputed after content-changing edits only.
    pub cached_word_count: usize,
    /// Character count, recomputed after content-changing edits only.
    pub cached_char_count: usize,
    /// Wrap width in characters, at least 1.
    pub max_chars_per_visual_line: usize,
}

/// Number of characters in the first `i` lines.
pub open spec fn chars_upto(lines: Seq<Line>, i: int) -> int
    decreases i,
{
    if i <= 0 || i > lines.len() {
        0
    } else {
        chars_upto(lines, i - 1) + lines[i - 1].content@.len()
    }
}

/// Character count of the whole document: every character of every line.
pub open spec fn char_tally_of(lines: Seq<Line>) -> int {
    chars_upto(lines, lines.len() as int)
}

/// Word-count contribution of the first `i` lines. Words never span lines,
/// so the document's count is the sum of the per-line tallies.
pub open spec fn words_upto_lines(lines: Seq<Line>, i: int) -> int
    decreases i,
{
    if i <= 0 || i > lines.len() {
        0
    } else {
        words_upto_lines(lines, i - 1) + word_tally(lines[i - 1].content@)
    }
}

/// Word count of the whole document.
pub open spec fn word_tally_of(lines: Seq<Line>) -> int {
    words_upto_lines(lines, lines.len() as int)
}

/// The document joined into one character sequence, from line `i` on, each
/// line preceded by a newline.
pub open spec fn tail_joined(lines: Seq<Line>, i: int) -> Seq<char>
    decreases lines.len() - i,
{
    if i < 0 || i >= lines.len() {
        Seq::empty()
    } else {
        seq!['\n'] + lines[i].content@ + tail_joined(lines, i + 1)
    }
}

/// The document joined into one character sequence, lines separated by
/// newlines.
pub open spec fn joined_text(lines: Seq<Line>) -> Seq<char> {
    if lines.len() == 0 {
        Seq::empty()
    } else {
        lines[0].content@ + tail_joined(lines, 1)
    }
}

/// Length the joined text of the first `i` lines will have.
pub open spec fn text_len_upto(lines: Seq<Line>, i: int) -> int
    decreases i,
{
    if i <= 0 || i > lines.len() {
        0
    } else {
        text_len_upto(lines, i - 1) + (if i - 1 > 0 {
            1int
        } else {
            0int
        }) + lines[i - 1].content@.len()
    }
}

/// Number of visual lines the first `i` logical lines occupy.
pub open spec fn vis_upto(lines: Seq<Line>, max: int, i: int) -> int
    decreases i,
{
    if i <= 0 || i > lines.len() {
        0
    } else {
        vis_upto(lines, max, i - 1) + visual_lines_of(lines[i - 1].content@, max)
    }
}

/// Number of visual lines the whole document occupies.
pub open spec fn total_visual_of(lines: Seq<Line>, max: int) -> int {
    vis_upto(lines, max, lines.len() as int)
}

/// Length of the joined document text from line `i` on (each of those
/// lines preceded by its newline separator).
spec fn tail_len(lines: Seq<Line>, i: int) -> int
    decreases lines.len() - i,
{
    if i < 0 || i >= lines.len() {
        0
    } else {
        1 + lines[i].content@.len() + tail_len(lines, i + 1)
    }
}

proof fn lemma_tail_joined_len(lines: Seq<Line>, i: int)
    requires
        0 <= i <= lines.len(),
    ensures
        tail_joined(lines, i).len() == tail_len(lines, i),
    decreases lines.len() - i,
{
    if i < lines.len() {
        lemma_tail_joined_len(lines, i + 1);
    }
}

proof fn lemma_text_len_prefix_plus_suffix(lines: Seq<Line>, i: int)
    requires
        1 <= i <= lines.len(),
    ensures
        text_len_upto(lines, lines.len() as int) == text_len_upto(lines, i) + tail_len(lines, i),
    decreases lines.len() - i,
{
    if i < lines.len() {
        lemma_text_len_prefix_plus_suffix(lines, i + 1);
    }
}

/// `text_len_upto` over the whole document is exactly the length of the
/// joined text.
pub proof fn lemma_text_len_is_joined_len(lines: Seq<Line>)
    ensures
        text_len_upto(lines, lines.len() as int) == joined_text(lines).len(),
{
    if lines.len() > 0 {
        lemma_tail_joined_len(lines, 1);
        lemma_text_len_prefix_plus_suffix(lines, 1);
        assert(text_len_upto(lines, 0) == 0);
        assert(text_len_upto(lines, 1) == lines[0].content@.len());
    }
}

/// Word tally of the document from line `i` on.
spec fn words_from_lines(lines: Seq<Line>, i: int) -> int
    decreases lines.len() - i,
{
    if i < 0 || i >= lines.len() {
        0
    } else {
        word_tally(lines[i].content@) + words_from_lines(lines, i + 1)
    }
}

proof fn lemma_line_plus_tail_tally(lines: Seq<Line>, i: int)
    requires
        0 <= i < lines.len(),
    ensures
        word_tally(lines[i].content@ + tail_joined(lines, i + 1)) == words_from_lines(lines, i),
    decreases lines.len() - i,
{
    if i + 1 == lines.len() {
        assert(lines[i].content@ + tail_joined(lines, i + 1) =~= lines[i].content@);
        assert(words_from_lines(lines, i + 1) == 0);
    } else {
        lemma_line_plus_tail_tally(lines, i + 1);
        assert(lines[i].content@ + tail_joined(lines, i + 1) =~= lines[i].content@ + seq!['\n']
            + (lines[i + 1].content@ + tail_joined(lines, i + 2)));
        crate::text::lemma_word_tally_split(
            lines[i].content@,
            '\n',
            lines[i + 1].content@ + tail_joined(lines, i + 2),
        );
        assert(word_tally(lines[i].content@ + seq!['\n'] + (lines[i + 1].content@ + tail_joined(
            lines,
            i + 2,
        ))) == word_tally(lines[i].content@) + word_tally(
            lines[i + 1].content@ + tail_joined(lines, i + 2),
        ));
        assert(words_from_lines(lines, i) == word_tally(lines[i].content@) + words_from_lines(
            lines,
            i + 1,
        ));
    }
}

proof fn lemma_word_prefix_plus_suffix(lines: Seq<Line>, i: int)
    requires
        0 <= i <= lines.len(),
    ensures
        word_tally_of(lines) == words_upto_lines(lines, i) + words_from_lines(lines, i),
    decreases lines.len() - i,
{
    if i < lines.len() {
        lemma_word_prefix_plus_suffix(lines, i + 1);
    }
}

/// The document's word count — the sum of the per-line word tallies — is
/// exactly the word count of the whole document joined into one text with
/// newline separators: words never span a line boundary.
pub proof fn lemma_word_tally_of_joined(lines: Seq<Line>)
    ensures
        word_tally_of(lines) == word_tally(joined_text(lines)),
{
    if lines.len() > 0 {
        lemma_line_plus_tail_tally(lines, 0);
        lemma_word_prefix_plus_suffix(lines, 0);
    }
}

impl TextEditorState {
    /// Structural soundness: a non-empty buffer of style-aligned lines, a
    /// cursor on a valid position, and positive layout metrics.
    pub open spec fn wf(self) -> bool {
        &&& self.lines@.len() >= 1
        &&& self.cursor_vpos < self.lines@.len()
        &&& self.cursor_hpos <= self.lines@[self.cursor_vpos as int].content@.len()
        &&& forall|i: int|
            0 <= i < self.lines@.len() ==> (#[trigger] self.lines@[i]).styles_match()
        &&& self.max_chars_per_visual_line >= 1
        &&& self.char_width >= 1
        &&& self.line_height >= 1
    }

    /// The characters of the cursor's line.
    pub open spec fn cur_content(self) -> Seq<char> {
        self.lines@[self.cursor_vpos as int].content@
    }

    /// The document-global visual row the cursor rests on: the visual lines
    /// of every logical line above it, plus its row within its own line.
    pub open spec fn spec_cursor_row(self) -> int {
        let within = if self.cur_content().len() == 0 {
            0int
        } else {
            visual_row_from(
                self.cur_content(),
                self.max_chars_per_visual_line as int,
                self.cursor_hpos as int,
                0,
            )
        };
        cap_usize(
            vis_upto(
                self.lines@,
                self.max_chars_per_visual_line as int,
                self.cursor_vpos as int,
            ) + within,
        )
    }

    /// The scroll offset after revealing the cursor, starting from offset
    /// `so`: scrolled up to the cursor's row when it lies above the viewport,
    /// down to it when it lies below, then clipped to the scrollable range.
    pub open spec fn spec_reveal(self, so: int) -> int {
        let cy = cap_u64(
            self.spec_cursor_row() * self.line_height,
        );
        let lh = self.line_height as int;
        let vh = self.viewport_height as int;
        let total = cap_usize(
            total_visual_of(self.lines@, self.max_chars_per_visual_line as int),
        );
        let adjusted = if cy < so {
            cy
        } else if cap_u64(cy + lh) > cap_u64(so + vh) {
            cap_u64(cy + lh) - vh
        } else {
            so
        };
        let bound = if cap_u64(total * lh) > vh {
            cap_u64(total * lh) - vh
        } else {
            0
        };
        if adjusted > bound {
            bound
        } else {
            adjusted
        }
    }

    /// The cursor's position as `(char offset, line index)`.
    pub fn cursor_position(&self) -> (r: (usize, usize))
        ensures
            r.0 == self.cursor_hpos,
            r.1 == self.cursor_vpos,
    {
        (self.cursor_hpos, self.cursor_vpos)
    }

    /// The cached word count of the document.
    pub fn word_count(&self) -> (n: usize)
        ensures
            n == self.cached_word_count,
    {
        self.cached_word_count
    }

    /// The cached character count of the document.
    pub fn char_count(&self) -> (n: usize)
        ensures
            n == self.cached_char_count,
    {
        self.cached_char_count
    }

    /// Number of logical lines in the document.
    pub fn line_count(&self) -> (n: usize)
        ensures
            n == self.lines@.len(),
    {
        self.lines.len()
    }

    /// A copy of line `n`.
    pub fn line(&self, n: usize) -> (l: Line)
        requires
            n < self.lines@.len(),
        ensures
            l.content@ == self.lines@[n as int].content@,
            l.fonts@ == self.lines@[n as int].fonts@,
            l.font_sizes@ == self.lines@[n as int].font_sizes@,
    {
        self.lines[n].clone()
    }

    /// Copies of the first `n` lines (fewer when the document is shorter).
    pub fn lines(&self, n: usize) -> (ls: Vec<Line>)
        ensures
            ls@.len() == if n <= self.lines@.len() {
                n as int
            } else {
                self.lines@.len() as int
            },
            forall|j: int|
                0 <= j < ls@.len() ==> {
                    &&& (#[trigger] ls@[j]).content@ == self.lines@[j].content@
                    &&& ls@[j].fonts@ == self.lines@[j].fonts@
                    &&& ls@[j].font_sizes@ == self.lines@[j].font_sizes@
                },
    {
        let end = if n <= self.lines.len() {
            n
        } else {
            self.lines.len()
        };
        let mut ls: Vec<Line> = Vec::new();
        let mut i: usize = 0;
        while i < end
            invariant
                i <= end <= self.lines@.len(),
                ls@.len() == i,
                forall|j: int|
                    0 <= j < i ==> {
                        &&& (#[trigger] ls@[j]).content@ == self.lines@[j].content@
                        &&& ls@[j].fonts@ == self.lines@[j].fonts@
                        &&& ls@[j].font_sizes@ == self.lines@[j].font_sizes@
                    },
            decreases end - i,
        {
            ls.push(self.lines[i].clone());
            i = i + 1;
        }
        ls
    }

    /// Shows or hides the blinking cursor; a cosmetic toggle that touches
    /// nothing else — in particular the cached counts are not recomputed.
    pub fn toggle_cursor_visibility(&mut self)
        ensures
            final(self).cursor_visible == !old(self).cursor_visible,
            *final(self) == (TextEditorState {
                cursor_visible: final(self).cursor_visible,
                ..*old(self)
            }),
    {
        self.cursor_visible = !self.cursor_visible;
    }

    /// Pads the buffer with empty lines until line `index` exists; a no-op
    /// when it already does.
    pub fn ensure_line_exists(&mut self, index: usize)
        ensures
            index < old(self).lines@.len() ==> *final(self) == *old(self),
            index >= old(self).lines@.len() ==> {
                &&& final(self).lines@.len() == index + 1
                &&& forall|j: int|
                    0 <= j < old(self).lines@.len() ==> final(self).lines@[j] == old(
                        self,
                    ).lines@[j]
                &&& forall|j: int|
                    old(self).lines@.len() <= j < final(self).lines@.len() ==> {
                        &&& (#[trigger] final(self).lines@[j]).content@.len() == 0
                        &&& final(self).lines@[j].fonts@.len() == 0
                        &&& final(self).lines@[j].font_sizes@.len() == 0
                    }
                &&& *final(self) == (TextEditorState { lines: final(self).lines, ..*old(self) })
            },
            old(self).wf() ==> final(self).wf(),
    {
        while self.lines.len() <= index
            invariant
                index < old(self).lines@.len() ==> *self == *old(self),
                self.lines@.len() <= index + 1 || self.lines@.len() == old(self).lines@.len(),
                self.lines@.len() >= old(self).lines@.len(),
                forall|j: int|
                    0 <= j < old(self).lines@.len() ==> self.lines@[j] == old(self).lines@[j],
                forall|j: int|
                    old(self).lines@.len() <= j < self.lines@.len() ==> {
                        &&& (#[trigger] self.lines@[j]).content@.len() == 0
                        &&& self.lines@[j].fonts@.len() == 0
                        &&& self.lines@[j].font_sizes@.len() == 0
                    },
                *self == (TextEditorState { lines: self.lines, ..*old(self) }),
            decreases index + 1 - self.lines.len(),
        {
            self.lines.push(Line::new());
        }
    }

    /// Recomputes the cached word and character counts from the document;
    /// called after every content-changing edit, and only then.
    pub fn update_cached_counts(&mut self)
        ensures
            final(self).cached_char_count == cap_usize(char_tally_of(old(self).lines@)),
            final(self).cached_word_count == cap_usize(word_tally_of(old(self).lines@)),
            *final(self) == (TextEditorState {
                cached_char_count: final(self).cached_char_count,
                cached_word_count: final(self).cached_word_count,
                ..*old(self)
            }),
    {
        let n = self.lines.len();
        let mut chars: usize = 0;
        let mut words: usize = 0;
        let mut i: usize = 0;
        while i < n
            invariant
                i <= n == self.lines@.len(),
                chars == cap_usize(chars_upto(self.lines@, i as int)),
                words == cap_usize(words_upto_lines(self.lines@, i as int)),
                *self == *old(self),
            decreases n - i,
        {
            let l = &self.lines[i];
            chars = sat_add_usize(chars, l.content.len());
            words = sat_add_usize(words, count_words(&l.content));
            i = i + 1;
        }
        self.cached_char_count = chars;
        self.cached_word_count = words;
    }

    /// Length the joined document text will have (clipped at `usize`).
    pub fn estimate_text_capacity(&self) -> (n: usize)
        ensures
            n == cap_usize(joined_text(self.lines@).len() as int),
    {
        proof {
            lemma_text_len_is_joined_len(self.lines@);
        }
        let mut capacity: usize = 0;
        let mut i: usize = 0;
        while i < self.lines.len()
            invariant
                i <= self.lines@.len(),
                capacity == cap_usize(text_len_upto(self.lines@, i as int)),
            decreases self.lines@.len() - i,
        {
            if i > 0 {
                capacity = sat_add_usize(capacity, 1);
            }
            capacity = sat_add_usize(capacity, self.lines[i].content.len());
            i = i + 1;
        }
        capacity
    }

    /// The document as one character sequence, lines separated by newlines.
    pub fn text(&self) -> (out: Vec<char>)
        ensures
            out@ == joined_text(self.lines@),
    {
        let mut out: Vec<char> = Vec::with_capacity(self.estimate_text_capacity());
        let mut i: usize = 0;
        while i < self.lines.len()
            invariant
                i <= self.lines@.len(),
                i == 0 ==> out@ == Seq::<char>::empty(),
                i >= 1 ==> joined_text(self.lines@) == out@ + tail_joined(self.lines@, i as int),
            decreases self.lines@.len() - i,
        {
            if i > 0 {
                out.push('\n');
            }
            let ghost mid = out@;
            crate::line::extend_vec(&mut out, &self.lines[i].content);
            proof {
                if i == 0 {
                    assert(out@ =~= self.lines@[0].content@);
                    assert(joined_text(self.lines@) =~= out@ + tail_joined(self.lines@, 1));
                } else {
                    assert(tail_joined(self.lines@, i as int) == seq!['\n']
                        + self.lines@[i as int].content@ + tail_joined(self.lines@, i + 1));
                    assert(out@ =~= mid + self.lines@[i as int].content@);
                    assert(joined_text(self.lines@) =~= out@ + tail_joined(self.lines@, i + 1));
                }
            }
            i = i + 1;
        }
        proof {
            if self.lines@.len() == 0 {
                assert(out@ =~= joined_text(self.lines@));
            } else {
                assert(tail_joined(self.lines@, self.lines@.len() as int) =~= Seq::<char>::empty());
                assert(out@ =~= joined_text(self.lines@));
            }
        }
        out
    }

    /// Number of visual lines the whole document occupies under the current
    /// wrap width (clipped at `usize`).
    pub fn visual_line_count(&self) -> (n: usize)
        requires
            self.max_chars_per_visual_line >= 1,
        ensures
            n == cap_usize(
                total_visual_of(self.lines@, self.max_chars_per_visual_line as int),
            ),
    {
        let mut n: usize = 0;
        let mut i: usize = 0;
        while i < self.lines.len()
            invariant
                i <= self.lines@.len(),
                self.max_chars_per_visual_line >= 1,
                n == cap_usize(
                    vis_upto(self.lines@, self.max_chars_per_visual_line as int, i as int),
                ),
            decreases self.lines@.len() - i,
        {
            let v = calculate_visual_lines(&self.lines[i], self.max_chars_per_visual_line);
            n = sat_add_usize(n, v);
            i = i + 1;
        }
        n
    }

    /// Number of visual lines occupied by the logical lines above line
    /// `logical_line_idx` (clipped at `usize`).
    pub fn get_visual_line_offset(&self, logical_line_idx: usize) -> (n: usize)
        requires
            self.max_chars_per_visual_line >= 1,
            logical_line_idx <= self.lines@.len(),
        ensures
            n == cap_usize(
                vis_upto(
                    self.lines@,
                    self.max_chars_per_visual_line as int,
                    logical_line_idx as int,
                ),
            ),
    {
        let mut n: usize = 0;
        let mut i: usize = 0;
        while i < logical_line_idx
            invariant
                i <= logical_line_idx <= self.lines@.len(),
                self.max_chars_per_visual_line >= 1,
                n == cap_usize(
                    vis_upto(self.lines@, self.max_chars_per_visual_line as int, i as int),
                ),
            decreases logical_line_idx - i,
        {
            let v = calculate_visual_lines(&self.lines[i], self.max_chars_per_visual_line);
            n = sat_add_usize(n, v);
            i = i + 1;
        }
        n
    }
}

impl Default for TextEditorState {
    /// A fresh editor: one empty line, cursor at the origin, a 16-pixel
    /// default size on a 9.6-pixel advance and 20-pixel line height, and a
    /// 120-character wrap width until a viewport is set.
    fn default() -> (s: Self)
        ensures
            s.wf(),
            s.lines@.len() == 1,
            s.lines@[0].content@.len() == 0,
            s.lines@[0].fonts@.len() == 0,
            s.lines@[0].font_sizes@.len() == 0,
            s.cursor_hpos == 0,
            s.cursor_vpos == 0,
            s.cursor_visible == true,
            s.default_font == 0,
            s.default_font_size == 160,
            s.char_width == 96,
            s.line_height == 200,
            s.scroll_offset_y == 0,
            s.viewport_height == 0,
            s.viewport_width == 0,
            s.cached_word_count == 0,
            s.cached_char_count == 0,
            s.max_chars_per_visual_line == 120,
    {
        let mut lines: Vec<Line> = Vec::new();
        lines.push(Line::new());
        TextEditorState {
            lines,
            cursor_hpos: 0,
            cursor_vpos: 0,
            cursor_visible: true,
            default_font: 0,
            default_font_size: 160,
            char_width: 96,
            line_height: 200,
            scroll_offset_y: 0,
            viewport_height: 0,
            viewport_width: 0,
            cached_word_count: 0,
            cached_char_count: 0,
            max_chars_per_visual_line: 120,
        }
    }
}

} // verus!
