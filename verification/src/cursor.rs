//! The cursor controller: editing and navigation intents, each a transition
//! on the editor state that keeps the buffer and the cursor well formed and
//! ends with the cursor's visual row revealed where the intent calls for it.

use vstd::prelude::*;
use crate::clip::cap_usize;
use crate::editor::{char_tally_of, word_tally_of, TextEditorState};
use crate::line::Line;
use crate::text::{char_is_white, is_white};
use crate::wrap::{calculate_visual_lines, find_wrap_position, logical_to_visual_position,
    walk_to_row};
use crate::wrap::{chunks_from, last_white_in, row_base_from, row_start_from, visual_lines_of,
    visual_row_from, wrap_pos};
use crate::wrap::{lemma_last_white_in, lemma_row_start_in_range, lemma_row_start_stable,
    lemma_rows_of_visual, lemma_wrap_pos_progress};

verus! {

/// The offset reached by walking left from `p` over whitespace.
pub open spec fn back_skip_white(s: Seq<char>, p: int) -> int
    decreases p,
{
    if 0 < p <= s.len() && is_white(s[p - 1]) {
        back_skip_white(s, p - 1)
    } else {
        p
    }
}

/// The offset reached by walking right from `p` over whitespace.
pub open spec fn fwd_skip_white(s: Seq<char>, p: int) -> int
    decreases s.len() - p,
{
    if 0 <= p < s.len() && is_white(s[p]) {
        fwd_skip_white(s, p + 1)
    } else {
        p
    }
}

/// The offset reached by walking right from `p` over non-whitespace.
pub open spec fn fwd_skip_word(s: Seq<char>, p: int) -> int
    decreases s.len() - p,
{
    if 0 <= p < s.len() && !is_white(s[p]) {
        fwd_skip_word(s, p + 1)
    } else {
        p
    }
}

/// Where a word-wise backspace at `hpos` stops deleting: whitespace just
/// before the cursor is skipped, then the deletion runs back through the
/// word and into the whitespace run separating it, stopping just after that
/// run's first character — or at the line start when no whitespace precedes
/// the word.
pub open spec fn ctrl_back_stop(s: Seq<char>, hpos: int) -> int {
    let e = back_skip_white(s, hpos);
    if e <= 0 {
        0
    } else {
        let lw = last_white_in(s, 0, e);
        if lw < 0 {
            0
        } else {
            back_skip_white(s, lw + 1) + 1
        }
    }
}

/// Where a word-wise delete at `hpos` stops: past the whitespace run at the
/// cursor, then past the following word.
pub open spec fn ctrl_delete_end(s: Seq<char>, hpos: int) -> int {
    fwd_skip_word(s, fwd_skip_white(s, hpos))
}

pub proof fn lemma_back_skip_white(s: Seq<char>, p: int)
    requires
        0 <= p <= s.len(),
    ensures
        0 <= back_skip_white(s, p) <= p,
        back_skip_white(s, p) > 0 ==> !is_white(s[back_skip_white(s, p) - 1]),
    decreases p,
{
    if 0 < p && is_white(s[p - 1]) {
        lemma_back_skip_white(s, p - 1);
    }
}

/// A word-wise backspace always deletes at least one character: its stop
/// lies strictly before the cursor.
pub proof fn lemma_ctrl_back_stop(s: Seq<char>, hpos: int)
    requires
        1 <= hpos <= s.len(),
    ensures
        0 <= ctrl_back_stop(s, hpos) < hpos,
{
    let e = back_skip_white(s, hpos);
    lemma_back_skip_white(s, hpos);
    if e > 0 {
        let lw = last_white_in(s, 0, e);
        lemma_last_white_in(s, 0, e);
        if lw >= 0 {
            assert(is_white(s[lw]));
            assert(lw != e - 1);
            assert(back_skip_white(s, lw + 1) == back_skip_white(s, lw));
            lemma_back_skip_white(s, lw);
        }
    }
}

/// The fields a cursor intent leaves untouched: fonts, layout metrics and
/// the viewport geometry.
pub open spec fn same_layout(pre: TextEditorState, post: TextEditorState) -> bool {
    &&& post.cursor_visible == pre.cursor_visible
    &&& post.default_font == pre.default_font
    &&& post.default_font_size == pre.default_font_size
    &&& post.char_width == pre.char_width
    &&& post.line_height == pre.line_height
    &&& post.viewport_height == pre.viewport_height
    &&& post.viewport_width == pre.viewport_width
    &&& post.max_chars_per_visual_line == pre.max_chars_per_visual_line
}

/// The cached counts carried over unchanged (pure cursor motion).
pub open spec fn same_counts(pre: TextEditorState, post: TextEditorState) -> bool {
    &&& post.cached_word_count == pre.cached_word_count
    &&& post.cached_char_count == pre.cached_char_count
}

/// The cached counts agree with the document (after a content edit).
pub open spec fn counts_refreshed(post: TextEditorState) -> bool {
    &&& post.cached_char_count == cap_usize(char_tally_of(post.lines@))
    &&& post.cached_word_count == cap_usize(word_tally_of(post.lines@))
}

/// The scroll offset was re-derived to reveal the cursor.
pub open spec fn scroll_revealed(pre: TextEditorState, post: TextEditorState) -> bool {
    post.scroll_offset_y == post.spec_reveal(pre.scroll_offset_y as int)
}

/// Exact effect of `handle_text_input` on the editor state.
pub open spec fn text_input_effect(pre: TextEditorState, post: TextEditorState, input: Seq<char>) -> bool {
    &&& (post.wf())
    &&& (post.lines@.len() == pre.lines@.len())
    &&& (post.lines@[pre.cursor_vpos as int].content@ == pre.cur_content().subrange(0, pre.cursor_hpos as int) + input + pre.cur_content().skip(pre.cursor_hpos as int))
    &&& (post.lines@[pre.cursor_vpos as int].fonts@ == pre.lines@[pre.cursor_vpos as int].fonts@.subrange(0, pre.cursor_hpos as int) + Seq::new(
                input.len(),
                |k: int| pre.default_font,
            ) + pre.lines@[pre.cursor_vpos as int].fonts@.skip(
                pre.cursor_hpos as int,
            ))
    &&& (post.lines@[pre.cursor_vpos as int].font_sizes@ == pre.lines@[pre.cursor_vpos as int].font_sizes@.subrange(0, pre.cursor_hpos as int) + Seq::new(
                input.len(),
                |k: int| pre.default_font_size,
            ) + pre.lines@[pre.cursor_vpos as int].font_sizes@.skip(
                pre.cursor_hpos as int,
            ))
    &&& (forall|j: int|
                0 <= j < pre.lines@.len() && j != pre.cursor_vpos ==> (
                #[trigger] post.lines@[j]) == pre.lines@[j])
    &&& (post.cursor_vpos == pre.cursor_vpos)
    &&& (post.cursor_hpos == pre.cursor_hpos + input.len())
    &&& (same_layout(pre, post))
    &&& (same_counts(pre, post))
    &&& (scroll_revealed(pre, post))
}

/// Exact effect of `handle_enter` on the editor state.
pub open spec fn enter_effect(pre: TextEditorState, post: TextEditorState, sd: int) -> bool {
    &&& (post.wf())
    &&& (sd == if pre.cursor_vpos + 1 == pre.lines@.len() {
                1int
            } else {
                0int
            })
    &&& (post.lines@.len() == pre.lines@.len() + 1)
    &&& (forall|j: int|
                0 <= j < pre.cursor_vpos ==> (#[trigger] post.lines@[j]) == pre.lines@[j])
    &&& (forall|j: int|
                pre.cursor_vpos + 1 < j < post.lines@.len() ==> (#[trigger] post.lines@[j]) == pre.lines@[j - 1])
    &&& (post.lines@[pre.cursor_vpos as int].content@ == pre.cur_content().subrange(0, pre.cursor_hpos as int))
    &&& (post.lines@[pre.cursor_vpos as int].fonts@ == pre.lines@[pre.cursor_vpos as int].fonts@.subrange(0, pre.cursor_hpos as int))
    &&& (post.lines@[pre.cursor_vpos as int].font_sizes@ == pre.lines@[pre.cursor_vpos as int].font_sizes@.subrange(0, pre.cursor_hpos as int))
    &&& (post.lines@[pre.cursor_vpos + 1].content@ == pre.cur_content().skip(pre.cursor_hpos as int))
    &&& (post.lines@[pre.cursor_vpos + 1].fonts@ == pre.lines@[pre.cursor_vpos as int].fonts@.skip(pre.cursor_hpos as int))
    &&& (post.lines@[pre.cursor_vpos + 1].font_sizes@ == pre.lines@[pre.cursor_vpos as int].font_sizes@.skip(pre.cursor_hpos as int))
    &&& (post.cursor_vpos == pre.cursor_vpos + 1)
    &&& (post.cursor_hpos == 0)
    &&& (same_layout(pre, post))
    &&& (counts_refreshed(post))
    &&& (scroll_revealed(pre, post))
}

/// Exact effect of `handle_backspace` on the editor state.
pub open spec fn backspace_effect(pre: TextEditorState, post: TextEditorState, ctrl: bool) -> bool {
    &&& (post.wf())
    &&& (counts_refreshed(post))
    &&& (same_layout(pre, post))
    &&& (scroll_revealed(pre, post))
    &&& (pre.cursor_hpos > 0 && !ctrl ==> ({
                let vpos = pre.cursor_vpos as int;
                let hpos = pre.cursor_hpos as int;
                &&& post.lines@.len() == pre.lines@.len()
                &&& forall|j: int|
                    0 <= j < pre.lines@.len() && j != vpos ==> (#[trigger] post.lines@[j]) == pre.lines@[j]
                &&& post.lines@[vpos].content@ == pre.cur_content().remove(hpos - 1)
                &&& post.lines@[vpos].fonts@ == pre.lines@[vpos].fonts@.remove(
                    hpos - 1,
                )
                &&& post.lines@[vpos].font_sizes@ == pre.lines@[
                    vpos].font_sizes@.remove(hpos - 1)
                &&& post.cursor_vpos == pre.cursor_vpos
                &&& post.cursor_hpos == pre.cursor_hpos - 1
            }))
    &&& (pre.cursor_hpos > 0 && ctrl ==> ({
                let vpos = pre.cursor_vpos as int;
                let s = pre.cur_content();
                let stop = ctrl_back_stop(s, pre.cursor_hpos as int);
                &&& post.lines@.len() == pre.lines@.len()
                &&& forall|j: int|
                    0 <= j < pre.lines@.len() && j != vpos ==> (#[trigger] post.lines@[j]) == pre.lines@[j]
                &&& post.lines@[vpos].content@ == s.subrange(0, stop) + s.skip(
                    pre.cursor_hpos as int,
                )
                &&& post.lines@[vpos].fonts@ == pre.lines@[vpos].fonts@.subrange(
                    0,
                    stop,
                ) + pre.lines@[vpos].fonts@.skip(pre.cursor_hpos as int)
                &&& post.lines@[vpos].font_sizes@ == pre.lines@[
                    vpos].font_sizes@.subrange(0, stop) + pre.lines@[vpos].font_sizes@.skip(
                    pre.cursor_hpos as int,
                )
                &&& post.cursor_vpos == pre.cursor_vpos
                &&& post.cursor_hpos == stop
            }))
    &&& (pre.cursor_hpos == 0 && pre.cursor_vpos > 0 ==> ({
                let vpos = pre.cursor_vpos as int;
                &&& post.lines@.len() == pre.lines@.len() - 1
                &&& forall|j: int|
                    0 <= j < vpos - 1 ==> (#[trigger] post.lines@[j]) == pre.lines@[j]
                &&& post.lines@[vpos - 1].content@ == pre.lines@[vpos - 1].content@
                    + pre.lines@[vpos].content@
                &&& post.lines@[vpos - 1].fonts@ == pre.lines@[vpos - 1].fonts@ + pre.lines@[vpos].fonts@
                &&& post.lines@[vpos - 1].font_sizes@ == pre.lines@[vpos
                    - 1].font_sizes@ + pre.lines@[vpos].font_sizes@
                &&& forall|j: int|
                    vpos - 1 < j < post.lines@.len() ==> (#[trigger] post.lines@[j])
                        == pre.lines@[j + 1]
                &&& post.cursor_vpos == pre.cursor_vpos - 1
                &&& post.cursor_hpos == pre.lines@[vpos - 1].content@.len()
            }))
    &&& (pre.cursor_hpos == 0 && pre.cursor_vpos == 0 ==> ({
                &&& post.lines@.len() == pre.lines@.len()
                &&& forall|j: int|
                    0 <= j < pre.lines@.len() ==> {
                        &&& (#[trigger] post.lines@[j]).content@ == pre.lines@[j].content@
                        &&& post.lines@[j].fonts@ == pre.lines@[j].fonts@
                        &&& post.lines@[j].font_sizes@ == pre.lines@[j].font_sizes@
                    }
                &&& post.cursor_vpos == pre.cursor_vpos
                &&& post.cursor_hpos == pre.cursor_hpos
            }))
}

/// Exact effect of `handle_delete` on the editor state.
pub open spec fn delete_effect(pre: TextEditorState, post: TextEditorState, ctrl: bool) -> bool {
    &&& (post.wf())
    &&& (counts_refreshed(post))
    &&& (same_layout(pre, post))
    &&& (scroll_revealed(pre, post))
    &&& (post.cursor_vpos == pre.cursor_vpos)
    &&& (post.cursor_hpos == pre.cursor_hpos)
    &&& (ctrl ==> ({
                let vpos = pre.cursor_vpos as int;
                let s = pre.cur_content();
                let e = ctrl_delete_end(s, pre.cursor_hpos as int);
                &&& post.lines@.len() == pre.lines@.len()
                &&& forall|j: int|
                    0 <= j < pre.lines@.len() && j != vpos ==> (#[trigger] post.lines@[j]) == pre.lines@[j]
                &&& post.lines@[vpos].content@ == s.subrange(
                    0,
                    pre.cursor_hpos as int,
                ) + s.skip(e)
                &&& post.lines@[vpos].fonts@ == pre.lines@[vpos].fonts@.subrange(
                    0,
                    pre.cursor_hpos as int,
                ) + pre.lines@[vpos].fonts@.skip(e)
                &&& post.lines@[vpos].font_sizes@ == pre.lines@[
                    vpos].font_sizes@.subrange(0, pre.cursor_hpos as int) + pre.lines@[vpos].font_sizes@.skip(e)
            }))
    &&& (!ctrl && pre.cursor_hpos < pre.cur_content().len() ==> ({
                let vpos = pre.cursor_vpos as int;
                let hpos = pre.cursor_hpos as int;
                &&& post.lines@.len() == pre.lines@.len()
                &&& forall|j: int|
                    0 <= j < pre.lines@.len() && j != vpos ==> (#[trigger] post.lines@[j]) == pre.lines@[j]
                &&& post.lines@[vpos].content@ == pre.cur_content().remove(hpos)
                &&& post.lines@[vpos].fonts@ == pre.lines@[vpos].fonts@.remove(hpos)
                &&& post.lines@[vpos].font_sizes@ == pre.lines@[
                    vpos].font_sizes@.remove(hpos)
            }))
    &&& (!ctrl && pre.cursor_hpos == pre.cur_content().len() && pre.cursor_vpos < pre.lines@.len() - 1 ==> ({
                let vpos = pre.cursor_vpos as int;
                &&& post.lines@.len() == pre.lines@.len() - 1
                &&& forall|j: int|
                    0 <= j < vpos ==> (#[trigger] post.lines@[j]) == pre.lines@[j]
                &&& post.lines@[vpos].content@ == pre.lines@[vpos].content@ + pre.lines@[vpos + 1].content@
                &&& post.lines@[vpos].fonts@ == pre.lines@[vpos].fonts@ + pre.lines@[vpos + 1].fonts@
                &&& post.lines@[vpos].font_sizes@ == pre.lines@[vpos].font_sizes@
                    + pre.lines@[vpos + 1].font_sizes@
                &&& forall|j: int|
                    vpos < j < post.lines@.len() ==> (#[trigger] post.lines@[j])
                        == pre.lines@[j + 1]
            }))
    &&& (!ctrl && pre.cursor_hpos == pre.cur_content().len() && pre.cursor_vpos == pre.lines@.len() - 1 ==> post.lines@ == pre.lines@)
}

/// Exact effect of `handle_arrow_left` on the editor state.
pub open spec fn arrow_left_effect(pre: TextEditorState, post: TextEditorState) -> bool {
    &&& (post.wf())
    &&& (post.lines == pre.lines)
    &&& (pre.cursor_hpos > 0 ==> post.cursor_vpos == pre.cursor_vpos
                && post.cursor_hpos == pre.cursor_hpos - 1)
    &&& (pre.cursor_hpos == 0 && pre.cursor_vpos > 0 ==> post.cursor_vpos
                == pre.cursor_vpos - 1 && post.cursor_hpos == pre.lines@[pre.cursor_vpos - 1].content@.len())
    &&& (pre.cursor_hpos == 0 && pre.cursor_vpos == 0 ==> post.cursor_vpos
                == 0 && post.cursor_hpos == 0)
    &&& (same_layout(pre, post))
    &&& (same_counts(pre, post))
    &&& (scroll_revealed(pre, post))
}

/// Exact effect of `handle_arrow_right` on the editor state.
pub open spec fn arrow_right_effect(pre: TextEditorState, post: TextEditorState) -> bool {
    &&& (post.wf())
    &&& (post.lines == pre.lines)
    &&& (pre.cursor_hpos < pre.cur_content().len() ==> post.cursor_vpos
                == pre.cursor_vpos && post.cursor_hpos == pre.cursor_hpos + 1)
    &&& (pre.cursor_hpos == pre.cur_content().len() && pre.cursor_vpos < pre.lines@.len() - 1 ==> post.cursor_vpos == pre.cursor_vpos + 1 && post.cursor_hpos == 0)
    &&& (pre.cursor_hpos == pre.cur_content().len() && pre.cursor_vpos == pre.lines@.len() - 1 ==> post.cursor_vpos == pre.cursor_vpos && post.cursor_hpos == pre.cursor_hpos)
    &&& (same_layout(pre, post))
    &&& (same_counts(pre, post))
    &&& (scroll_revealed(pre, post))
}

/// Exact effect of `handle_arrow_up` on the editor state.
pub open spec fn arrow_up_effect(pre: TextEditorState, post: TextEditorState) -> bool {
    &&& (post.wf())
    &&& (post.lines == pre.lines)
    &&& (same_layout(pre, post))
    &&& (same_counts(pre, post))
    &&& (pre.cursor_vpos == 0 && pre.cursor_hpos == 0 ==> post == pre)
    &&& (!(pre.cursor_vpos == 0 && pre.cursor_hpos == 0) ==> ({
                let s = pre.cur_content();
                let max = pre.max_chars_per_visual_line as int;
                let hpos = pre.cursor_hpos as int;
                let vl = if s.len() == 0 {
                    0int
                } else {
                    visual_row_from(s, max, hpos, 0)
                };
                let vc = if s.len() == 0 {
                    0int
                } else {
                    hpos - row_base_from(s, max, hpos, 0)
                };
                &&& scroll_revealed(pre, post)
                &&& (vl > 0 ==> {
                    let p = row_start_from(s, max, vl - 1, 0);
                    let w = wrap_pos(s, p, max);
                    &&& post.cursor_vpos == pre.cursor_vpos
                    &&& post.cursor_hpos == if p + vc < w - 1 {
                        p + vc
                    } else {
                        w - 1
                    }
                })
                &&& (vl == 0 && pre.cursor_vpos > 0 ==> {
                    let prev = pre.lines@[pre.cursor_vpos - 1].content@;
                    let pt = visual_lines_of(prev, max);
                    let p = row_start_from(prev, max, pt - 1, 0);
                    &&& post.cursor_vpos == pre.cursor_vpos - 1
                    &&& post.cursor_hpos == if p + vc < prev.len() {
                        p + vc
                    } else {
                        prev.len() as int
                    }
                })
                &&& (vl == 0 && pre.cursor_vpos == 0 ==> post.cursor_vpos == 0
                    && post.cursor_hpos == pre.cursor_hpos)
            }))
}

/// Exact effect of `handle_arrow_down` on the editor state.
pub open spec fn arrow_down_effect(pre: TextEditorState, post: TextEditorState) -> bool {
    &&& (post.wf())
    &&& (post.lines == pre.lines)
    &&& (same_layout(pre, post))
    &&& (same_counts(pre, post))
    &&& (pre.cursor_vpos == pre.lines@.len() - 1 && pre.cursor_hpos == pre.cur_content().len() ==> post == pre)
    &&& (!(pre.cursor_vpos == pre.lines@.len() - 1 && pre.cursor_hpos == pre.cur_content().len()) ==> ({
                let s = pre.cur_content();
                let max = pre.max_chars_per_visual_line as int;
                let hpos = pre.cursor_hpos as int;
                let vl = if s.len() == 0 {
                    0int
                } else {
                    visual_row_from(s, max, hpos, 0)
                };
                let vc = if s.len() == 0 {
                    0int
                } else {
                    hpos - row_base_from(s, max, hpos, 0)
                };
                let total = visual_lines_of(s, max);
                &&& scroll_revealed(pre, post)
                &&& (vl < total - 1 ==> {
                    let p = row_start_from(s, max, vl + 1, 0);
                    let w = wrap_pos(s, p, max);
                    let kept = if p + vc < w - 1 {
                        p + vc
                    } else {
                        w - 1
                    };
                    &&& post.cursor_vpos == pre.cursor_vpos
                    &&& post.cursor_hpos == if kept < s.len() {
                        kept
                    } else {
                        s.len() as int
                    }
                })
                &&& (vl >= total - 1 && pre.cursor_vpos < pre.lines@.len() - 1 ==> {
                    let next = pre.lines@[pre.cursor_vpos + 1].content@;
                    &&& post.cursor_vpos == pre.cursor_vpos + 1
                    &&& post.cursor_hpos == if vc < next.len() {
                        vc
                    } else {
                        next.len() as int
                    }
                })
                &&& (vl >= total - 1 && pre.cursor_vpos == pre.lines@.len() - 1 ==>
                    post.cursor_vpos == pre.cursor_vpos && post.cursor_hpos
                        == pre.cursor_hpos)
            }))
}

impl TextEditorState {
    /// Inserts the typed characters at the cursor with the current default
    /// style and advances the cursor past them. The cached counts are left
    /// to the caller (the event dispatcher refreshes them).
    pub fn handle_text_input(&mut self, input: &Vec<char>)
        requires
            old(self).wf(),
            old(self).cur_content().len() + input@.len() <= usize::MAX,
        ensures
            text_input_effect(*old(self), *final(self), input@),
    {
        self.ensure_line_exists(self.cursor_vpos);
        let ghost pre = *self;
        let ghost vpos = self.cursor_vpos as int;
        let ghost hpos = self.cursor_hpos as int;
        let mut i: usize = 0;
        while i < input.len()
            invariant
                pre.wf(),
                i <= input@.len(),
                pre.cur_content().len() + input@.len() <= usize::MAX,
                self.cursor_vpos == pre.cursor_vpos,
                self.cursor_hpos == pre.cursor_hpos,
                vpos == pre.cursor_vpos as int,
                hpos == pre.cursor_hpos as int,
                self.lines@.len() == pre.lines@.len(),
                *self == (TextEditorState { lines: self.lines, ..pre }),
                forall|j: int|
                    0 <= j < pre.lines@.len() && j != vpos ==> (#[trigger] self.lines@[j])
                        == pre.lines@[j],
                self.lines@[vpos].content@ == pre.cur_content().subrange(0, hpos)
                    + input@.subrange(0, i as int) + pre.cur_content().skip(hpos),
                self.lines@[vpos].fonts@ == pre.lines@[vpos].fonts@.subrange(0, hpos) + Seq::new(
                    i as nat,
                    |k: int| pre.default_font,
                ) + pre.lines@[vpos].fonts@.skip(hpos),
                self.lines@[vpos].font_sizes@ == pre.lines@[vpos].font_sizes@.subrange(0, hpos)
                    + Seq::new(i as nat, |k: int| pre.default_font_size) + pre.lines@[
                    vpos].font_sizes@.skip(hpos),
                self.lines@[vpos].styles_match(),
            decreases input@.len() - i,
        {
            let c = input[i];
            self.lines[self.cursor_vpos].insert_char(
                self.cursor_hpos + i,
                c,
                self.default_font,
                self.default_font_size,
            );
            proof {
                assert(self.lines@[vpos].content@ =~= pre.cur_content().subrange(0, hpos)
                    + input@.subrange(0, i + 1) + pre.cur_content().skip(hpos));
                assert(self.lines@[vpos].fonts@ =~= pre.lines@[vpos].fonts@.subrange(0, hpos)
                    + Seq::new((i + 1) as nat, |k: int| pre.default_font) + pre.lines@[
                    vpos].fonts@.skip(hpos));
                assert(self.lines@[vpos].font_sizes@ =~= pre.lines@[vpos].font_sizes@.subrange(
                    0,
                    hpos,
                ) + Seq::new((i + 1) as nat, |k: int| pre.default_font_size) + pre.lines@[
                    vpos].font_sizes@.skip(hpos));
            }
            i = i + 1;
        }
        proof {
            assert(input@.subrange(0, input@.len() as int) =~= input@);
        }
        self.cursor_hpos = self.cursor_hpos + input.len();
        let ghost before_reconcile = self.lines@[vpos];
        self.lines[self.cursor_vpos].ensure_styles_match();
        proof {
            assert(self.lines@[vpos].fonts@ =~= before_reconcile.fonts@);
            assert(self.lines@[vpos].font_sizes@ =~= before_reconcile.font_sizes@);
        }
        self.ensure_cursor_visible();
    }

    /// Splits the cursor's line at the cursor: the remainder — characters
    /// and styles — becomes a fresh line right below, and the cursor moves
    /// to its start; the cursor is revealed and the cached counts refreshed.
    /// Returns 1 when the split happened on the last line (the caller may
    /// want to scroll towards the new line), else 0.
    pub fn handle_enter(&mut self) -> (sd: i32)
        requires
            old(self).wf(),
        ensures
            enter_effect(*old(self), *final(self), sd as int),
    {
        self.ensure_line_exists(self.cursor_vpos);
        let n = self.lines.len();
        let vpos = self.cursor_vpos;
        let sd: i32 = if n - vpos == 1 {
            1
        } else {
            0
        };
        let new_line = self.lines[vpos].split_off_at(self.cursor_hpos);
        self.lines.insert(vpos + 1, new_line);
        self.cursor_vpos = vpos + 1;
        self.cursor_hpos = 0;
        self.ensure_cursor_visible();
        self.update_cached_counts();
        sd
    }

    /// Joins the cursor's line into the previous one; the cursor lands where
    /// the previous line used to end. A no-op on the first line.
    pub fn join_with_previous_line(&mut self)
        requires
            old(self).wf(),
        ensures
            final(self).wf(),
            old(self).cursor_vpos == 0 ==> *final(self) == *old(self),
            old(self).cursor_vpos > 0 ==> {
                let vpos = old(self).cursor_vpos as int;
                &&& final(self).lines@.len() == old(self).lines@.len() - 1
                &&& forall|j: int|
                    0 <= j < vpos - 1 ==> (#[trigger] final(self).lines@[j]) == old(self).lines@[j]
                &&& final(self).lines@[vpos - 1].content@ == old(self).lines@[vpos - 1].content@
                    + old(self).lines@[vpos].content@
                &&& final(self).lines@[vpos - 1].fonts@ == old(self).lines@[vpos - 1].fonts@ + old(self).lines@[vpos].fonts@
                &&& final(self).lines@[vpos - 1].font_sizes@ == old(self).lines@[vpos
                    - 1].font_sizes@ + old(self).lines@[vpos].font_sizes@
                &&& forall|j: int|
                    vpos - 1 < j < final(self).lines@.len() ==> (#[trigger] final(self).lines@[j])
                        == old(self).lines@[j + 1]
                &&& final(self).cursor_vpos == vpos - 1
                &&& final(self).cursor_hpos == old(self).lines@[vpos - 1].content@.len()
                &&& *final(self) == (TextEditorState {
                    lines: final(self).lines,
                    cursor_hpos: final(self).cursor_hpos,
                    cursor_vpos: final(self).cursor_vpos,
                    ..*old(self)
                })
            },
    {
        if self.cursor_vpos == 0 {
            return;
        }
        let current = self.lines.remove(self.cursor_vpos);
        let prev_idx = self.cursor_vpos - 1;
        let new_hpos = self.lines[prev_idx].content.len();
        self.lines[prev_idx].append(&current);
        self.cursor_vpos = prev_idx;
        self.cursor_hpos = new_hpos;
    }

    /// Joins the next line into the cursor's line; the cursor stays put.
    /// A no-op on the last line.
    pub fn join_with_next_line(&mut self)
        requires
            old(self).wf(),
        ensures
            final(self).wf(),
            old(self).cursor_vpos >= old(self).lines@.len() - 1 ==> *final(self) == *old(self),
            old(self).cursor_vpos < old(self).lines@.len() - 1 ==> {
                let vpos = old(self).cursor_vpos as int;
                &&& final(self).lines@.len() == old(self).lines@.len() - 1
                &&& forall|j: int|
                    0 <= j < vpos ==> (#[trigger] final(self).lines@[j]) == old(self).lines@[j]
                &&& final(self).lines@[vpos].content@ == old(self).lines@[vpos].content@ + old(self).lines@[vpos + 1].content@
                &&& final(self).lines@[vpos].fonts@ == old(self).lines@[vpos].fonts@ + old(self).lines@[vpos + 1].fonts@
                &&& final(self).lines@[vpos].font_sizes@ == old(self).lines@[vpos].font_sizes@
                    + old(self).lines@[vpos + 1].font_sizes@
                &&& forall|j: int|
                    vpos < j < final(self).lines@.len() ==> (#[trigger] final(self).lines@[j])
                        == old(self).lines@[j + 1]
                &&& *final(self) == (TextEditorState { lines: final(self).lines, ..*old(self) })
            },
    {
        if self.cursor_vpos >= self.lines.len() - 1 {
            return;
        }
        let next = self.lines.remove(self.cursor_vpos + 1);
        self.lines[self.cursor_vpos].append(&next);
        let ghost joined = self.lines@[self.cursor_vpos as int];
        self.lines[self.cursor_vpos].ensure_styles_match();
        proof {
            assert(self.lines@[self.cursor_vpos as int].fonts@ =~= joined.fonts@);
            assert(self.lines@[self.cursor_vpos as int].font_sizes@ =~= joined.font_sizes@);
        }
    }

    /// Deletes word-wise before the cursor: skips the whitespace touching
    /// the cursor, then removes the preceding word together with the tail of
    /// the whitespace run separating it (see `ctrl_back_stop`), and refreshes
    /// the cached counts. A no-op at the start of a line.
    pub fn handle_ctrl_backspace(&mut self)
        requires
            old(self).wf(),
        ensures
            final(self).wf(),
            old(self).cursor_hpos == 0 ==> *final(self) == *old(self),
            old(self).cursor_hpos > 0 ==> ({
                let vpos = old(self).cursor_vpos as int;
                let s = old(self).cur_content();
                let stop = ctrl_back_stop(s, old(self).cursor_hpos as int);
                &&& final(self).lines@.len() == old(self).lines@.len()
                &&& forall|j: int|
                    0 <= j < old(self).lines@.len() && j != vpos ==> (#[trigger] final(self).lines@[j]) == old(self).lines@[j]
                &&& final(self).lines@[vpos].content@ == s.subrange(0, stop) + s.skip(
                    old(self).cursor_hpos as int,
                )
                &&& final(self).lines@[vpos].fonts@ == old(self).lines@[vpos].fonts@.subrange(
                    0,
                    stop,
                ) + old(self).lines@[vpos].fonts@.skip(old(self).cursor_hpos as int)
                &&& final(self).lines@[vpos].font_sizes@ == old(self).lines@[
                    vpos].font_sizes@.subrange(0, stop) + old(self).lines@[vpos].font_sizes@.skip(
                    old(self).cursor_hpos as int,
                )
                &&& final(self).cursor_vpos == old(self).cursor_vpos
                &&& final(self).cursor_hpos == stop
                &&& counts_refreshed(*final(self))
                &&& final(self).scroll_offset_y == old(self).scroll_offset_y
                &&& same_layout(*old(self), *final(self))
            }),
    {
        if self.cursor_hpos == 0 {
            return;
        }
        let vpos = self.cursor_vpos;
        let hpos = self.cursor_hpos;
        let ghost s = self.lines@[vpos as int].content@;
        let mut e: usize = hpos;
        while e > 0 && char_is_white(self.lines[vpos].content[e - 1])
            invariant
                (vpos as int) < self.lines@.len(),
                s == self.lines@[vpos as int].content@,
                0 <= e <= hpos <= s.len(),
                back_skip_white(s, hpos as int) == back_skip_white(s, e as int),
            decreases e,
        {
            e = e - 1;
        }
        let mut start: usize = 0;
        if e > 0 {
            let mut i: usize = e;
            let mut lw: usize = 0;
            let mut found: bool = false;
            while i > 0
                invariant_except_break
                    (vpos as int) < self.lines@.len(),
                    s == self.lines@[vpos as int].content@,
                    0 <= i <= e <= s.len(),
                    found == false,
                    last_white_in(s, 0, e as int) == last_white_in(s, 0, i as int),
                ensures
                    found ==> lw < e && lw as int == last_white_in(s, 0, e as int),
                    !found ==> last_white_in(s, 0, e as int) == -1,
                decreases i,
            {
                if char_is_white(self.lines[vpos].content[i - 1]) {
                    lw = i - 1;
                    found = true;
                    break;
                }
                i = i - 1;
            }
            if found {
                proof {
                    lemma_last_white_in(s, 0, e as int);
                }
                assert(back_skip_white(s, lw + 1 as int) == back_skip_white(s, lw as int));
                let mut r: usize = lw;
                while r > 0 && char_is_white(self.lines[vpos].content[r - 1])
                    invariant
                        (vpos as int) < self.lines@.len(),
                        s == self.lines@[vpos as int].content@,
                        0 <= r <= lw < e <= s.len(),
                        back_skip_white(s, lw as int) == back_skip_white(s, r as int),
                    decreases r,
                {
                    r = r - 1;
                }
                start = r + 1;
            }
        }
        proof {
            lemma_ctrl_back_stop(s, hpos as int);
        }
        let _ = self.lines[vpos].drain_chars(start, hpos);
        self.cursor_hpos = start;
        self.update_cached_counts();
    }

    /// Deletes word-wise after the cursor: the whitespace run at the cursor
    /// and the word that follows it (see `ctrl_delete_end`). The cursor and
    /// the cached counts are left as they are (the caller refreshes counts).
    pub fn handle_ctrl_delete(&mut self)
        requires
            old(self).wf(),
        ensures
            final(self).wf(),
            ({
                let vpos = old(self).cursor_vpos as int;
                let s = old(self).cur_content();
                let e = ctrl_delete_end(s, old(self).cursor_hpos as int);
                &&& e >= old(self).cursor_hpos
                &&& (e == old(self).cursor_hpos ==> *final(self) == *old(self))
                &&& (e > old(self).cursor_hpos ==> {
                    &&& final(self).lines@.len() == old(self).lines@.len()
                    &&& forall|j: int|
                        0 <= j < old(self).lines@.len() && j != vpos ==> (#[trigger] final(self).lines@[j]) == old(self).lines@[j]
                    &&& final(self).lines@[vpos].content@ == s.subrange(
                        0,
                        old(self).cursor_hpos as int,
                    ) + s.skip(e)
                    &&& final(self).lines@[vpos].fonts@ == old(self).lines@[vpos].fonts@.subrange(
                        0,
                        old(self).cursor_hpos as int,
                    ) + old(self).lines@[vpos].fonts@.skip(e)
                    &&& final(self).lines@[vpos].font_sizes@ == old(self).lines@[
                        vpos].font_sizes@.subrange(0, old(self).cursor_hpos as int) + old(self).lines@[vpos].font_sizes@.skip(e)
                    &&& *final(self) == (TextEditorState { lines: final(self).lines, ..*old(self) })
                })
            }),
    {
        let vpos = self.cursor_vpos;
        let hpos = self.cursor_hpos;
        let ghost s = self.lines@[vpos as int].content@;
        let len = self.lines[vpos].content.len();
        let mut e: usize = hpos;
        while e < len && char_is_white(self.lines[vpos].content[e])
            invariant
                (vpos as int) < self.lines@.len(),
                s == self.lines@[vpos as int].content@,
                hpos <= e <= len,
                len == s.len(),
                fwd_skip_white(s, hpos as int) == fwd_skip_white(s, e as int),
            decreases len - e,
        {
            e = e + 1;
        }
        let ghost word_from = e as int;
        while e < len && !char_is_white(self.lines[vpos].content[e])
            invariant
                (vpos as int) < self.lines@.len(),
                s == self.lines@[vpos as int].content@,
                word_from <= e <= len,
                hpos <= word_from,
                len == s.len(),
                fwd_skip_word(s, word_from) == fwd_skip_word(s, e as int),
            decreases len - e,
        {
            e = e + 1;
        }
        if e > hpos {
            let _ = self.lines[vpos].drain_chars(hpos, e);
        }
    }

    /// Backspace: deletes the character before the cursor (word-wise when
    /// `ctrl` is set); at the start of a line it joins the line into the
    /// previous one, and at the very start of the document it edits nothing.
    /// Ends by revealing the cursor and refreshing the cached counts.
    pub fn handle_backspace(&mut self, ctrl: bool)
        requires
            old(self).wf(),
        ensures
            backspace_effect(*old(self), *final(self), ctrl),
    {
        self.ensure_line_exists(self.cursor_vpos);
        if self.cursor_hpos > 0 {
            if ctrl {
                self.handle_ctrl_backspace();
            } else {
                let _ = self.lines[self.cursor_vpos].remove_char(self.cursor_hpos - 1);
                self.cursor_hpos = self.cursor_hpos - 1;
            }
        } else if self.cursor_vpos > 0 {
            self.join_with_previous_line();
        }
        if self.cursor_vpos < self.lines.len() {
            let ghost settled = self.lines@[self.cursor_vpos as int];
            self.lines[self.cursor_vpos].ensure_styles_match();
            proof {
                assert(self.lines@[self.cursor_vpos as int].fonts@ =~= settled.fonts@);
                assert(self.lines@[self.cursor_vpos as int].font_sizes@ =~= settled.font_sizes@);
            }
        }
        self.ensure_cursor_visible();
        self.update_cached_counts();
    }

    /// Delete: removes the character at the cursor (word-wise when `ctrl`
    /// is set); at the end of a line it joins the next line into this one,
    /// and at the very end of the document it edits nothing. The cursor
    /// stays put but is revealed, and the cached counts are refreshed.
    #[verifier::rlimit(30)]
    pub fn handle_delete(&mut self, ctrl: bool)
        requires
            old(self).wf(),
        ensures
            delete_effect(*old(self), *final(self), ctrl),
    {
        self.ensure_line_exists(self.cursor_vpos);
        if ctrl {
            self.handle_ctrl_delete();
            proof {
                let s = old(self).cur_content();
                let hpos = old(self).cursor_hpos as int;
                let vpos = old(self).cursor_vpos as int;
                let e = ctrl_delete_end(s, hpos);
                if e == hpos {
                    assert(s.subrange(0, hpos) + s.skip(e) =~= s);
                    assert(old(self).lines@[vpos].fonts@.subrange(0, hpos) + old(
                        self,
                    ).lines@[vpos].fonts@.skip(e) =~= old(self).lines@[vpos].fonts@);
                    assert(old(self).lines@[vpos].font_sizes@.subrange(0, hpos) + old(
                        self,
                    ).lines@[vpos].font_sizes@.skip(e) =~= old(self).lines@[vpos].font_sizes@);
                }
            }
        } else {
            if self.cursor_hpos < self.lines[self.cursor_vpos].content.len() {
                let _ = self.lines[self.cursor_vpos].remove_char(self.cursor_hpos);
            } else if self.cursor_vpos < self.lines.len() - 1 {
                self.join_with_next_line();
            }
        }
        self.ensure_cursor_visible();
        self.update_cached_counts();
    }

    /// Moves the cursor one position left, wrapping to the end of the
    /// previous line at a line start; a no-op at the document start. Ends by
    /// revealing the cursor.
    pub fn handle_arrow_left(&mut self)
        requires
            old(self).wf(),
        ensures
            arrow_left_effect(*old(self), *final(self)),
    {
        if self.cursor_hpos > 0 {
            self.cursor_hpos = self.cursor_hpos - 1;
        } else if self.cursor_vpos > 0 {
            self.cursor_vpos = self.cursor_vpos - 1;
            self.ensure_line_exists(self.cursor_vpos);
            self.cursor_hpos = self.lines[self.cursor_vpos].content.len();
        }
        self.ensure_cursor_visible();
    }

    /// Moves the cursor one position right, wrapping to the start of the
    /// next line at a line end; a no-op at the document end. Ends by
    /// revealing the cursor.
    pub fn handle_arrow_right(&mut self)
        requires
            old(self).wf(),
        ensures
            arrow_right_effect(*old(self), *final(self)),
    {
        self.ensure_line_exists(self.cursor_vpos);
        if self.cursor_hpos < self.lines[self.cursor_vpos].content.len() {
            self.cursor_hpos = self.cursor_hpos + 1;
        } else if self.cursor_vpos < self.lines.len() - 1 {
            self.cursor_vpos = self.cursor_vpos + 1;
            self.cursor_hpos = 0;
        }
        self.ensure_cursor_visible();
    }
}

impl TextEditorState {
    /// Moves the cursor one visual row up, keeping its visual column where
    /// the target row is long enough and clamping it otherwise: within the
    /// same logical line when the cursor sits on a wrapped row, else onto
    /// the last visual row of the previous logical line. A no-op at the
    /// document start; otherwise ends by revealing the cursor.
    pub fn handle_arrow_up(&mut self)
        requires
            old(self).wf(),
        ensures
            arrow_up_effect(*old(self), *final(self)),
    {
        if self.cursor_vpos == 0 && self.cursor_hpos == 0 {
            return;
        }
        let max = self.max_chars_per_visual_line;
        let vpos = self.cursor_vpos;
        let ghost s = self.lines@[vpos as int].content@;
        let ghost maxg = max as int;
        let ghost hposg = self.cursor_hpos as int;
        let r = logical_to_visual_position(&self.lines[vpos], self.cursor_hpos, max);
        let visual_line = r.0;
        let visual_column = r.1;
        if visual_line > 0 {
            proof {
                lemma_rows_of_visual(s, maxg, hposg, 0);
                assert(row_start_from(s, maxg, visual_line as int, 0) == ({
                    let p = row_start_from(s, maxg, visual_line - 1, 0);
                    if 0 <= p < s.len() {
                        wrap_pos(s, p, maxg)
                    } else {
                        p
                    }
                }));
            }
            let pos = walk_to_row(&self.lines[vpos], visual_line - 1, max);
            proof {
                lemma_wrap_pos_progress(s, pos as int, maxg);
            }
            let w = find_wrap_position(&self.lines[vpos], pos, max);
            let cap = w - 1;
            self.cursor_hpos = if visual_column < cap - pos {
                pos + visual_column
            } else {
                cap
            };
        } else if self.cursor_vpos > 0 {
            self.cursor_vpos = vpos - 1;
            let prev_total = calculate_visual_lines(&self.lines[vpos - 1], max);
            let p = walk_to_row(&self.lines[vpos - 1], prev_total - 1, max);
            let prev_len = self.lines[vpos - 1].content.len();
            self.cursor_hpos = if visual_column < prev_len - p {
                p + visual_column
            } else {
                prev_len
            };
        }
        self.ensure_cursor_visible();
    }

    /// Moves the cursor one visual row down, keeping its visual column where
    /// the target row is long enough and clamping it otherwise: within the
    /// same logical line while wrapped rows remain below, else onto the
    /// first visual row of the next logical line. A no-op at the document
    /// end; otherwise ends by revealing the cursor.
    pub fn handle_arrow_down(&mut self)
        requires
            old(self).wf(),
        ensures
            arrow_down_effect(*old(self), *final(self)),
    {
        let at_last_line = self.cursor_vpos >= self.lines.len() - 1;
        if at_last_line && self.cursor_hpos >= self.lines[self.cursor_vpos].content.len() {
            return;
        }
        let max = self.max_chars_per_visual_line;
        let vpos = self.cursor_vpos;
        let ghost s = self.lines@[vpos as int].content@;
        let ghost maxg = max as int;
        let ghost hposg = self.cursor_hpos as int;
        let r = logical_to_visual_position(&self.lines[vpos], self.cursor_hpos, max);
        let visual_line = r.0;
        let visual_column = r.1;
        let total = calculate_visual_lines(&self.lines[vpos], max);
        let cur_len = self.lines[vpos].content.len();
        if visual_line < total - 1 {
            proof {
                lemma_row_start_in_range(s, maxg, 0, visual_line + 1);
            }
            let pos = walk_to_row(&self.lines[vpos], visual_line + 1, max);
            proof {
                lemma_wrap_pos_progress(s, pos as int, maxg);
            }
            let w = find_wrap_position(&self.lines[vpos], pos, max);
            let cap = w - 1;
            let kept = if visual_column < cap - pos {
                pos + visual_column
            } else {
                cap
            };
            self.cursor_hpos = if kept < cur_len {
                kept
            } else {
                cur_len
            };
        } else if self.cursor_vpos < self.lines.len() - 1 {
            self.cursor_vpos = vpos + 1;
            let next_len = self.lines[vpos + 1].content.len();
            self.cursor_hpos = if visual_column < next_len {
                visual_column
            } else {
                next_len
            };
        }
        self.ensure_cursor_visible();
    }
}

} // verus!
