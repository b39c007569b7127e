//! The editor's host-facing surface: the messages it reports, the normalized
//! keyboard intents it consumes, and a thin widget wrapper that owns the
//! state and forwards queries to it.

use vstd::prelude::*;
use crate::cursor::{arrow_down_effect, arrow_left_effect, arrow_right_effect, arrow_up_effect,
    backspace_effect, delete_effect, enter_effect, text_input_effect, counts_refreshed};
use crate::editor::TextEditorState;
use crate::line::Line;

verus! {

/// What an editor event changed, reported back to the host: the cursor
/// position after the event and, for vertical movement or a line split, the
/// direction the host may want to scroll (`-1` up, `1` down, `0` none).
#[derive(Debug, Clone, PartialEq, Eq, Structural)]
pub enum TextEditorMessage {
    CharacterInput(char),
    Backspace,
    Delete,
    CursorChanged(usize, usize, i32),
    ContentChanged(usize, usize, i32),
}

/// A normalized keyboard intent, as the host's event layer hands it in:
/// platform key events decoded, modifiers folded into the intent.
#[derive(Debug, Clone, PartialEq, Eq)]
pub enum KeyIntent {
    Enter,
    Backspace(bool),
    Delete(bool),
    ArrowLeft,
    ArrowRight,
    ArrowUp,
    ArrowDown,
    TextInput(Vec<char>),
}

/// Exact effect of one keyboard intent: the state transition of the matching
/// handler, and the message reported for it. Content-changing intents report
/// `ContentChanged`, pure cursor motion reports `CursorChanged`; vertical
/// arrows carry the scroll direction, Enter carries 1 when it split the last
/// line.
pub open spec fn key_event_effect(
    intent: KeyIntent,
    pre: TextEditorState,
    post: TextEditorState,
    msg: TextEditorMessage,
) -> bool {
    &&& (intent matches KeyIntent::Enter ==> {
        &&& enter_effect(pre, post, if pre.cursor_vpos + 1 == pre.lines@.len() {
            1int
        } else {
            0int
        })
        &&& msg == TextEditorMessage::ContentChanged(
            post.cursor_hpos,
            post.cursor_vpos,
            if pre.cursor_vpos + 1 == pre.lines@.len() {
                1i32
            } else {
                0i32
            },
        )
    })
    &&& (intent matches KeyIntent::Backspace(ctrl) ==> {
        &&& backspace_effect(pre, post, ctrl)
        &&& msg == TextEditorMessage::ContentChanged(post.cursor_hpos, post.cursor_vpos, 0i32)
    })
    &&& (intent matches KeyIntent::Delete(ctrl) ==> {
        &&& delete_effect(pre, post, ctrl)
        &&& msg == TextEditorMessage::ContentChanged(post.cursor_hpos, post.cursor_vpos, 0i32)
    })
    &&& (intent matches KeyIntent::ArrowLeft ==> {
        &&& arrow_left_effect(pre, post)
        &&& msg == TextEditorMessage::CursorChanged(post.cursor_hpos, post.cursor_vpos, 0i32)
    })
    &&& (intent matches KeyIntent::ArrowRight ==> {
        &&& arrow_right_effect(pre, post)
        &&& msg == TextEditorMessage::CursorChanged(post.cursor_hpos, post.cursor_vpos, 0i32)
    })
    &&& (intent matches KeyIntent::ArrowUp ==> {
        &&& arrow_up_effect(pre, post)
        &&& msg == TextEditorMessage::CursorChanged(post.cursor_hpos, post.cursor_vpos, -1i32)
    })
    &&& (intent matches KeyIntent::ArrowDown ==> {
        &&& arrow_down_effect(pre, post)
        &&& msg == TextEditorMessage::CursorChanged(post.cursor_hpos, post.cursor_vpos, 1i32)
    })
    &&& (intent matches KeyIntent::TextInput(t) ==> {
        &&& text_input_effect(pre, (TextEditorState {
            cached_word_count: pre.cached_word_count,
            cached_char_count: pre.cached_char_count,
            ..post
        }), t@)
        &&& counts_refreshed(post)
        &&& msg == TextEditorMessage::ContentChanged(post.cursor_hpos, post.cursor_vpos, 0i32)
    })
}

impl TextEditorState {
    /// Applies one normalized keyboard intent and reports what it changed.
    pub fn handle_keyboard_event(&mut self, intent: KeyIntent) -> (msg: TextEditorMessage)
        requires
            old(self).wf(),
            (intent matches KeyIntent::TextInput(t) ==> old(self).cur_content().len() + t@.len()
                <= usize::MAX),
        ensures
            final(self).wf(),
            key_event_effect(intent, *old(self), *final(self), msg),
    {
        match intent {
            KeyIntent::Enter => {
                let sd = self.handle_enter();
                TextEditorMessage::ContentChanged(self.cursor_hpos, self.cursor_vpos, sd)
            },
            KeyIntent::Backspace(ctrl) => {
                self.handle_backspace(ctrl);
                TextEditorMessage::ContentChanged(self.cursor_hpos, self.cursor_vpos, 0)
            },
            KeyIntent::Delete(ctrl) => {
                self.handle_delete(ctrl);
                TextEditorMessage::ContentChanged(self.cursor_hpos, self.cursor_vpos, 0)
            },
            KeyIntent::ArrowLeft => {
                self.handle_arrow_left();
                TextEditorMessage::CursorChanged(self.cursor_hpos, self.cursor_vpos, 0)
            },
            KeyIntent::ArrowRight => {
                self.handle_arrow_right();
                TextEditorMessage::CursorChanged(self.cursor_hpos, self.cursor_vpos, 0)
            },
            KeyIntent::ArrowUp => {
                self.handle_arrow_up();
                TextEditorMessage::CursorChanged(self.cursor_hpos, self.cursor_vpos, -1)
            },
            KeyIntent::ArrowDown => {
                self.handle_arrow_down();
                TextEditorMessage::CursorChanged(self.cursor_hpos, self.cursor_vpos, 1)
            },
            KeyIntent::TextInput(t) => {
                self.handle_text_input(&t);
                self.update_cached_counts();
                TextEditorMessage::ContentChanged(self.cursor_hpos, self.cursor_vpos, 0)
            },
        }
    }
}

/// The text editor widget: the owned editor state behind the narrow
/// interface a host embeds.
#[derive(Debug)]
pub struct TextEditorWidget {
    pub state: TextEditorState,
}

impl TextEditorWidget {
    /// A fresh editor widget over a default state.
    pub fn new() -> (w: TextEditorWidget)
        ensures
            w.state.wf(),
            w.state.lines@.len() == 1,
            w.state.lines@[0].content@.len() == 0,
            w.state.cursor_hpos == 0,
            w.state.cursor_vpos == 0,
            w.state.cached_word_count == 0,
            w.state.cached_char_count == 0,
    {
        TextEditorWidget { state: TextEditorState::default() }
    }

    /// Read access to the editor state.
    pub fn state(&self) -> (s: &TextEditorState)
        ensures
            *s == self.state,
    {
        &self.state
    }

    /// Sets the default font for newly typed characters.
    pub fn with_font(self, font: u32) -> (w: TextEditorWidget)
        ensures
            w.state == (TextEditorState { default_font: font, ..self.state }),
    {
        let mut w = self;
        w.state.default_font = font;
        w
    }

    /// Sets the default font size (tenths of a pixel) and re-derives the
    /// line height (1.2 times the size) and character advance (0.6 times
    /// the size), each kept at least one tenth of a pixel.
    pub fn with_font_size(self, size: u32) -> (w: TextEditorWidget)
        ensures
            w.state.default_font_size == size,
            w.state.line_height == if size * 12 / 10 >= 1 {
                size * 12 as int / 10
            } else {
                1int
            },
            w.state.char_width == if size * 6 / 10 >= 1 {
                size * 6 as int / 10
            } else {
                1int
            },
            w.state == (TextEditorState {
                default_font_size: size,
                line_height: w.state.line_height,
                char_width: w.state.char_width,
                ..self.state
            }),
            self.state.wf() ==> w.state.wf(),
    {
        let mut w = self;
        w.state.default_font_size = size;
        let lh = (size as u64) * 12 / 10;
        let cw = (size as u64) * 6 / 10;
        w.state.line_height = if lh >= 1 {
            lh
        } else {
            1
        };
        w.state.char_width = if cw >= 1 {
            cw
        } else {
            1
        };
        w
    }

    /// The default font for newly typed characters.
    pub fn default_font(&self) -> (f: u32)
        ensures
            f == self.state.default_font,
    {
        self.state.default_font
    }

    /// The default font size, in tenths of a pixel.
    pub fn default_font_size(&self) -> (s: u32)
        ensures
            s == self.state.default_font_size,
    {
        self.state.default_font_size
    }

    /// Applies one normalized keyboard intent and reports what it changed.
    pub fn process_keyboard_event(&mut self, intent: KeyIntent) -> (msg: TextEditorMessage)
        requires
            old(self).state.wf(),
            (intent matches KeyIntent::TextInput(t) ==> old(self).state.cur_content().len()
                + t@.len() <= usize::MAX),
        ensures
            final(self).state.wf(),
            key_event_effect(intent, old(self).state, final(self).state, msg),
    {
        self.state.handle_keyboard_event(intent)
    }

    /// Shows or hides the blinking cursor.
    pub fn toggle_cursor_visibility(&mut self)
        ensures
            final(self).state.cursor_visible == !old(self).state.cursor_visible,
            final(self).state == (TextEditorState {
                cursor_visible: final(self).state.cursor_visible,
                ..old(self).state
            }),
    {
        self.state.toggle_cursor_visibility();
    }

    /// The cursor's position as `(char offset, line index)`.
    pub fn cursor_position(&self) -> (r: (usize, usize))
        ensures
            r.0 == self.state.cursor_hpos,
            r.1 == self.state.cursor_vpos,
    {
        self.state.cursor_position()
    }

    /// The cached word count of the document.
    pub fn word_count(&self) -> (n: usize)
        ensures
            n == self.state.cached_word_count,
    {
        self.state.word_count()
    }

    /// The cached character count of the document.
    pub fn char_count(&self) -> (n: usize)
        ensures
            n == self.state.cached_char_count,
    {
        self.state.char_count()
    }

    /// Number of logical lines in the document.
    pub fn line_count(&self) -> (n: usize)
        ensures
            n == self.state.lines@.len(),
    {
        self.state.line_count()
    }

    /// Copies of the first `n` lines (fewer when the document is shorter).
    pub fn lines(&self, n: usize) -> (ls: Vec<Line>)
        ensures
            ls@.len() == if n <= self.state.lines@.len() {
                n as int
            } else {
                self.state.lines@.len() as int
            },
            forall|j: int|
                0 <= j < ls@.len() ==> {
                    &&& (#[trigger] ls@[j]).content@ == self.state.lines@[j].content@
                    &&& ls@[j].fonts@ == self.state.lines@[j].fonts@
                    &&& ls@[j].font_sizes@ == self.state.lines@[j].font_sizes@
                },
    {
        self.state.lines(n)
    }
}

impl Default for TextEditorWidget {
    /// Same as `TextEditorWidget::new`.
    fn default() -> (w: Self)
        ensures
            w.state.wf(),
            w.state.lines@.len() == 1,
            w.state.lines@[0].content@.len() == 0,
    {
        TextEditorWidget::new()
    }
}

} // verus!
