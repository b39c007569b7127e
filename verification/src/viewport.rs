//! Viewport and scroll handling: deriving the wrap width from the viewport,
//! keeping the cursor's visual row inside the viewport, wheel scrolling, and
//! mapping a pointer position back to a logical cursor position.

use vstd::prelude::*;
use crate::clip::{cap_u64, cap_usize, sat_add_u64, sat_mul_u64};
use crate::editor::{SIDE_PADDING, TextEditorState, total_visual_of};
use crate::line::Line;
use crate::wrap::{calculate_visual_lines, logical_to_visual_position, row_base_from,
    row_start_from, visual_lines_of, visual_row_from, walk_to_row};

verus! {

/// Left margin of the text area: 10 pixels, in tenths.
pub const LEFT_MARGIN: u64 = 100;

/// The wrap width a viewport yields: the width left after the side padding,
/// divided by the character advance, never below one character.
pub open spec fn derived_max_chars(vw: int, cw: int) -> int {
    let avail = if vw > SIDE_PADDING {
        vw - SIDE_PADDING
    } else {
        0
    };
    let q = cap_usize(avail / cw);
    if q >= 1 {
        q
    } else {
        1
    }
}

/// Walks the document from line `i` consuming `vrow` visual rows — each
/// line occupying its greedy wrap-chunk count, one row for an empty line —
/// and yields the logical line the row falls on with the row index within
/// it. A row past the last line clamps to the last line's last row.
pub open spec fn click_row_target(lines: Seq<Line>, max: int, vrow: int, i: int) -> (int, int)
    decreases lines.len() - i,
{
    if i < 0 || i >= lines.len() {
        (0, 0)
    } else {
        let nv = visual_lines_of(lines[i].content@, max);
        if vrow < nv {
            (i, vrow)
        } else if i == lines.len() - 1 {
            (i, nv - 1)
        } else {
            click_row_target(lines, max, vrow - nv, i + 1)
        }
    }
}

impl TextEditorState {
    /// Records a new viewport size and re-derives the wrap width from it;
    /// all previously computed wrap geometry is implicitly invalidated,
    /// since every layout query recomputes from the current width.
    pub fn set_viewport_size(&mut self, width: u64, height: u64)
        requires
            old(self).char_width >= 1,
        ensures
            final(self).viewport_width == width,
            final(self).viewport_height == height,
            final(self).max_chars_per_visual_line == derived_max_chars(
                width as int,
                old(self).char_width as int,
            ),
            *final(self) == (TextEditorState {
                viewport_width: width,
                viewport_height: height,
                max_chars_per_visual_line: final(self).max_chars_per_visual_line,
                ..*old(self)
            }),
            old(self).wf() ==> final(self).wf(),
    {
        self.viewport_width = width;
        self.viewport_height = height;
        self.update_max_chars();
    }

    /// Re-derives the wrap width from the current viewport width.
    pub fn update_max_chars(&mut self)
        requires
            old(self).char_width >= 1,
        ensures
            final(self).max_chars_per_visual_line == derived_max_chars(
                old(self).viewport_width as int,
                old(self).char_width as int,
            ),
            final(self).max_chars_per_visual_line >= 1,
            *final(self) == (TextEditorState {
                max_chars_per_visual_line: final(self).max_chars_per_visual_line,
                ..*old(self)
            }),
    {
        let avail = if self.viewport_width > SIDE_PADDING {
            self.viewport_width - SIDE_PADDING
        } else {
            0
        };
        let q = avail / self.char_width;
        let m = if q > usize::MAX as u64 {
            usize::MAX
        } else {
            q as usize
        };
        self.max_chars_per_visual_line = if m >= 1 {
            m
        } else {
            1
        };
    }

    /// Scrolls by `dy` tenths of a pixel: positive scrolls towards the top
    /// of the document, negative away from it; the offset never goes below
    /// zero (the upper clip happens when the cursor is next revealed).
    pub fn scroll_by(&mut self, dy: i64)
        ensures
            final(self).scroll_offset_y == if old(self).scroll_offset_y - dy < 0 {
                0int
            } else {
                cap_u64(old(self).scroll_offset_y - dy)
            },
            *final(self) == (TextEditorState {
                scroll_offset_y: final(self).scroll_offset_y,
                ..*old(self)
            }),
    {
        if dy >= 0 {
            let d = dy as u64;
            self.scroll_offset_y = if self.scroll_offset_y > d {
                self.scroll_offset_y - d
            } else {
                0
            };
        } else {
            let mag = (-(dy as i128)) as u64;
            self.scroll_offset_y = sat_add_u64(self.scroll_offset_y, mag);
        }
    }

    /// Scrolls by `n` visual lines, as a wheel reports them: `n` times the
    /// line height, towards the top of the document when positive, with the
    /// same clipping as `scroll_by`.
    pub fn scroll_by_lines(&mut self, n: i64)
        requires
            old(self).line_height >= 1,
        ensures
            final(self).scroll_offset_y == if old(self).scroll_offset_y - n
                * old(self).line_height < 0 {
                0int
            } else {
                cap_u64(old(self).scroll_offset_y - n * old(self).line_height)
            },
            *final(self) == (TextEditorState {
                scroll_offset_y: final(self).scroll_offset_y,
                ..*old(self)
            }),
    {
        let steps: u128 = if n >= 0 {
            n as u128
        } else {
            (-(n as i128)) as u128
        };
        assert(steps * (self.line_height as u128) <= (u64::MAX as int) * (u64::MAX as int))
            by (nonlinear_arith)
            requires
                0 <= steps <= u64::MAX,
                0 <= self.line_height <= u64::MAX,
        ;
        let wide = steps * (self.line_height as u128);
        let mag: u64 = if wide > u64::MAX as u128 {
            u64::MAX
        } else {
            wide as u64
        };
        proof {
            if n < 0 {
                assert((steps as int) * (self.line_height as int) == -((n as int) * (
                self.line_height as int))) by (nonlinear_arith)
                    requires
                        steps == -(n as int),
                ;
            }
        }
        if n >= 0 {
            self.scroll_offset_y = if self.scroll_offset_y > mag {
                self.scroll_offset_y - mag
            } else {
                0
            };
        } else {
            self.scroll_offset_y = sat_add_u64(self.scroll_offset_y, mag);
        }
    }

    /// Adjusts the scroll offset so that the cursor's document-global visual
    /// row lies inside the viewport, then clips it to the scrollable range.
    pub fn ensure_cursor_visible(&mut self)
        requires
            old(self).wf(),
        ensures
            final(self).scroll_offset_y == old(self).spec_reveal(
                old(self).scroll_offset_y as int,
            ),
            *final(self) == (TextEditorState {
                scroll_offset_y: final(self).scroll_offset_y,
                ..*old(self)
            }),
            final(self).wf(),
    {
        let total = self.visual_line_count();
        let rows_above = self.get_visual_line_offset(self.cursor_vpos);
        let r = logical_to_visual_position(
            &self.lines[self.cursor_vpos],
            self.cursor_hpos,
            self.max_chars_per_visual_line,
        );
        let row = crate::clip::sat_add_usize(rows_above, r.0);
        let cy = sat_mul_u64(row as u64, self.line_height);
        let lh = self.line_height;
        let vh = self.viewport_height;
        let reach = sat_add_u64(cy, lh);
        let window_end = sat_add_u64(self.scroll_offset_y, vh);
        if cy < self.scroll_offset_y {
            self.scroll_offset_y = cy;
        } else if reach > window_end {
            self.scroll_offset_y = reach - vh;
        }
        let total_height = sat_mul_u64(total as u64, lh);
        let bound = if total_height > vh {
            total_height - vh
        } else {
            0
        };
        if self.scroll_offset_y > bound {
            self.scroll_offset_y = bound;
        }
    }

    /// The cursor's visual position under the current wrap width:
    /// `(visual row within its logical line, column within that row)`.
    pub fn cursor_visual_position(&self) -> (r: (usize, usize))
        requires
            self.wf(),
        ensures
            self.cur_content().len() == 0 ==> r == (0usize, 0usize),
            self.cur_content().len() > 0 ==> {
                &&& r.0 == visual_row_from(
                    self.cur_content(),
                    self.max_chars_per_visual_line as int,
                    self.cursor_hpos as int,
                    0,
                )
                &&& r.1 == self.cursor_hpos - row_base_from(
                    self.cur_content(),
                    self.max_chars_per_visual_line as int,
                    self.cursor_hpos as int,
                    0,
                )
            },
    {
        logical_to_visual_position(
            &self.lines[self.cursor_vpos],
            self.cursor_hpos,
            self.max_chars_per_visual_line,
        )
    }

    /// The current vertical scroll offset, in tenths of a pixel.
    pub fn scroll_offset(&self) -> (so: u64)
        ensures
            so == self.scroll_offset_y,
    {
        self.scroll_offset_y
    }

    /// Moves the cursor to the position a pointer press at `(x, y)` (tenths
    /// of a pixel, viewport-relative) designates: the pressed document-global
    /// visual row is resolved through the greedy wrap decomposition to its
    /// logical line and wrap chunk (a press below the last line lands on its
    /// last row), and the column to a char offset within that chunk, clamped
    /// to the line's length.
    pub fn handle_click(&mut self, x: u64, y: u64)
        requires
            old(self).wf(),
        ensures
            final(self).wf(),
            ({
                let max = old(self).max_chars_per_visual_line as int;
                let vrow = cap_u64(y + old(self).scroll_offset_y) / old(self).line_height as int;
                let t = click_row_target(old(self).lines@, max, vrow, 0);
                let s = old(self).lines@[t.0].content@;
                let base = row_start_from(s, max, t.1, 0);
                let col = if x >= LEFT_MARGIN {
                    (x - LEFT_MARGIN) / old(self).char_width as int
                } else {
                    0int
                };
                &&& final(self).cursor_vpos == t.0
                &&& final(self).cursor_hpos == if base + col < s.len() {
                    base + col
                } else {
                    s.len() as int
                }
            }),
            final(self).cursor_visible == true,
            *final(self) == (TextEditorState {
                cursor_hpos: final(self).cursor_hpos,
                cursor_vpos: final(self).cursor_vpos,
                cursor_visible: true,
                ..*old(self)
            }),
    {
        let ghost max = self.max_chars_per_visual_line as int;
        let click_y = sat_add_u64(y, self.scroll_offset_y);
        let visual_line: u64 = click_y / self.line_height;
        let ghost vrow0 = visual_line as int;
        let mut remaining: u64 = visual_line;
        let mut target_vpos: usize = 0;
        let mut target_row: usize = 0;
        let mut idx: usize = 0;
        while idx < self.lines.len()
            invariant_except_break
                idx < self.lines@.len(),
                max == self.max_chars_per_visual_line as int,
                self.max_chars_per_visual_line >= 1,
                self.lines@.len() >= 1,
                click_row_target(self.lines@, max, vrow0, 0) == click_row_target(
                    self.lines@,
                    max,
                    remaining as int,
                    idx as int,
                ),
            ensures
                click_row_target(self.lines@, max, vrow0, 0) == (
                    target_vpos as int,
                    target_row as int,
                ),
                target_vpos < self.lines@.len(),
            decreases self.lines@.len() - idx,
        {
            let nv = calculate_visual_lines(&self.lines[idx], self.max_chars_per_visual_line);
            if remaining < nv as u64 {
                target_vpos = idx;
                target_row = remaining as usize;
                break;
            }
            if idx == self.lines.len() - 1 {
                target_vpos = idx;
                target_row = nv - 1;
                break;
            }
            remaining = remaining - nv as u64;
            idx = idx + 1;
        }
        let base = walk_to_row(
            &self.lines[target_vpos],
            target_row,
            self.max_chars_per_visual_line,
        );
        let col: u64 = if x >= LEFT_MARGIN {
            (x - LEFT_MARGIN) / self.char_width
        } else {
            0
        };
        let len = self.lines[target_vpos].content.len();
        self.cursor_vpos = target_vpos;
        self.cursor_hpos = if col < (len - base) as u64 {
            base + col as usize
        } else {
            len
        };
        self.cursor_visible = true;
    }
}

} // verus!
