//! A single logical line: its characters plus one style entry per character.
//!
//! A style is a font identity and a font size. The font is named by a plain
//! identifier that the host maps to an actual typeface; sizes and every other
//! length in this crate are in tenths of a pixel, so that the fixed
//! character-advance ratios stay exact in integer arithmetic.

use vstd::prelude::*;

verus! {

/// Font entries grown during style reconciliation get this font identity.
pub const FALLBACK_FONT: u32 = 0;

/// Size entries grown during style reconciliation get this size
/// (12 pixels, in tenths).
pub const FALLBACK_FONT_SIZE: u32 = 120;

/// One logical line of the document.
///
/// `content` holds the characters; `fonts` and `font_sizes` hold, index for
/// index, the style of each character. At rest both style arrays have exactly
/// one entry per character (`styles_match`); edit primitives preserve this,
/// and `ensure_styles_match` restores it whenever the arrays may have
/// diverged.
#[derive(Debug)]
pub struct Line {
    pub content: Vec<char>,
    pub fonts: Vec<u32>,
    pub font_sizes: Vec<u32>,
}

impl Line {
    /// The style arrays are aligned with the content, one entry per character.
    pub open spec fn styles_match(self) -> bool {
        self.fonts@.len() == self.content@.len() && self.font_sizes@.len()
            == self.content@.len()
    }

    /// Creates an empty line.
    pub fn new() -> (line: Line)
        ensures
            line.content@ == Seq::<char>::empty(),
            line.fonts@ == Seq::<u32>::empty(),
            line.font_sizes@ == Seq::<u32>::empty(),
            line.styles_match(),
    {
        Line { content: Vec::new(), fonts: Vec::new(), font_sizes: Vec::new() }
    }

    /// Trims or pads the style arrays so that they line up with the content
    /// again; grown entries get the fallback style.
    pub fn ensure_styles_match(&mut self)
        ensures
            final(self).content@ == old(self).content@,
            final(self).styles_match(),
            final(self).fonts@ == resized(old(self).fonts@, old(self).content@.len() as int,
                FALLBACK_FONT),
            final(self).font_sizes@ == resized(old(self).font_sizes@,
                old(self).content@.len() as int, FALLBACK_FONT_SIZE),
    {
        let target = self.content.len();
        resize_u32(&mut self.fonts, target, FALLBACK_FONT);
        resize_u32(&mut self.font_sizes, target, FALLBACK_FONT_SIZE);
    }

    /// Inserts `c` at offset `pos` with the given style; the characters and
    /// styles at and after `pos` shift right by one.
    pub fn insert_char(&mut self, pos: usize, c: char, font: u32, font_size: u32)
        requires
            old(self).styles_match(),
            pos <= old(self).content@.len(),
        ensures
            final(self).content@ == old(self).content@.insert(pos as int, c),
            final(self).fonts@ == old(self).fonts@.insert(pos as int, font),
            final(self).font_sizes@ == old(self).font_sizes@.insert(pos as int, font_size),
            final(self).styles_match(),
    {
        self.content.insert(pos, c);
        self.fonts.insert(pos, font);
        self.font_sizes.insert(pos, font_size);
    }

    /// Removes the character (and its style) at `pos`, returning it;
    /// a position at or past the end is a no-op returning `None`.
    pub fn remove_char(&mut self, pos: usize) -> (removed: Option<char>)
        requires
            old(self).styles_match(),
        ensures
            pos < old(self).content@.len() ==> {
                &&& removed == Some(old(self).content@[pos as int])
                &&& final(self).content@ == old(self).content@.remove(pos as int)
                &&& final(self).fonts@ == old(self).fonts@.remove(pos as int)
                &&& final(self).font_sizes@ == old(self).font_sizes@.remove(pos as int)
            },
            pos >= old(self).content@.len() ==> removed == None::<char> && *final(self) == *old(
                self,
            ),
            final(self).styles_match(),
    {
        if pos < self.content.len() {
            let c = self.content.remove(pos);
            self.fonts.remove(pos);
            self.font_sizes.remove(pos);
            Some(c)
        } else {
            None
        }
    }

    /// Removes the characters of `[start, end)` together with their styles,
    /// in one pass, and returns them; an empty range is a no-op.
    pub fn drain_chars(&mut self, start: usize, end: usize) -> (removed: Vec<char>)
        requires
            old(self).styles_match(),
            start <= end <= old(self).content@.len(),
        ensures
            removed@ == old(self).content@.subrange(start as int, end as int),
            final(self).content@ == old(self).content@.subrange(0, start as int) + old(
                self,
            ).content@.skip(end as int),
            final(self).fonts@ == old(self).fonts@.subrange(0, start as int) + old(
                self,
            ).fonts@.skip(end as int),
            final(self).font_sizes@ == old(self).font_sizes@.subrange(0, start as int) + old(
                self,
            ).font_sizes@.skip(end as int),
            final(self).styles_match(),
    {
        let removed = drain_vec(&mut self.content, start, end);
        let _ = drain_vec(&mut self.fonts, start, end);
        let _ = drain_vec(&mut self.font_sizes, start, end);
        removed
    }

    /// Truncates this line to `pos` characters and returns the remainder —
    /// characters together with their styles — as a new line.
    pub fn split_off_at(&mut self, pos: usize) -> (rest: Line)
        requires
            old(self).styles_match(),
            pos <= old(self).content@.len(),
        ensures
            final(self).content@ == old(self).content@.subrange(0, pos as int),
            final(self).fonts@ == old(self).fonts@.subrange(0, pos as int),
            final(self).font_sizes@ == old(self).font_sizes@.subrange(0, pos as int),
            rest.content@ == old(self).content@.skip(pos as int),
            rest.fonts@ == old(self).fonts@.skip(pos as int),
            rest.font_sizes@ == old(self).font_sizes@.skip(pos as int),
            final(self).styles_match(),
            rest.styles_match(),
    {
        let content = self.content.split_off(pos);
        let fonts = self.fonts.split_off(pos);
        let font_sizes = self.font_sizes.split_off(pos);
        Line { content, fonts, font_sizes }
    }

    /// Appends another line's characters and styles to this one.
    pub fn append(&mut self, other: &Line)
        ensures
            final(self).content@ == old(self).content@ + other.content@,
            final(self).fonts@ == old(self).fonts@ + other.fonts@,
            final(self).font_sizes@ == old(self).font_sizes@ + other.font_sizes@,
    {
        extend_vec(&mut self.content, &other.content);
        extend_vec(&mut self.fonts, &other.fonts);
        extend_vec(&mut self.font_sizes, &other.font_sizes);
    }

    /// The font of character `n`, if one is recorded there.
    pub fn font(&self, n: usize) -> (f: Option<u32>)
        ensures
            n < self.fonts@.len() ==> f == Some(self.fonts@[n as int]),
            n >= self.fonts@.len() ==> f == None::<u32>,
    {
        if n < self.fonts.len() {
            Some(self.fonts[n])
        } else {
            None
        }
    }

    /// The font size of character `n`, if one is recorded there.
    pub fn font_size(&self, n: usize) -> (s: Option<u32>)
        ensures
            n < self.font_sizes@.len() ==> s == Some(self.font_sizes@[n as int]),
            n >= self.font_sizes@.len() ==> s == None::<u32>,
    {
        if n < self.font_sizes.len() {
            Some(self.font_sizes[n])
        } else {
            None
        }
    }
}

impl Clone for Line {
    /// A clone holds the same characters and styles.
    fn clone(&self) -> (other: Line)
        ensures
            other.content@ == self.content@,
            other.fonts@ == self.fonts@,
            other.font_sizes@ == self.font_sizes@,
    {
        Line {
            content: copy_vec(&self.content),
            fonts: copy_vec(&self.fonts),
            font_sizes: copy_vec(&self.font_sizes),
        }
    }
}

/// `s` resized to `target` entries: truncated, or padded with `fill`.
pub open spec fn resized(s: Seq<u32>, target: int, fill: u32) -> Seq<u32> {
    if target <= s.len() {
        s.subrange(0, target)
    } else {
        s + Seq::new((target - s.len()) as nat, |i: int| fill)
    }
}

fn resize_u32(v: &mut Vec<u32>, target: usize, fill: u32)
    ensures
        final(v)@ == resized(old(v)@, target as int, fill),
{
    if target <= v.len() {
        v.truncate(target);
    } else {
        assert(v@.subrange(0, old(v)@.len() as int) =~= old(v)@);
        while v.len() < target
            invariant
                old(v)@.len() <= v@.len() <= target,
                v@.subrange(0, old(v)@.len() as int) == old(v)@,
                forall|i: int| old(v)@.len() <= i < v@.len() ==> v@[i] == fill,
            decreases target - v.len(),
        {
            v.push(fill);
            assert(v@.subrange(0, old(v)@.len() as int) =~= old(v)@);
        }
        assert(v@ =~= resized(old(v)@, target as int, fill));
    }
}

/// Removes `[start, end)` from `v` in one pass and returns it.
fn drain_vec<T: Copy>(v: &mut Vec<T>, start: usize, end: usize) -> (removed: Vec<T>)
    requires
        start <= end <= old(v)@.len(),
    ensures
        removed@ == old(v)@.subrange(start as int, end as int),
        final(v)@ == old(v)@.subrange(0, start as int) + old(v)@.skip(end as int),
{
    let mut tail = v.split_off(start);
    let rest = tail.split_off(end - start);
    assert(rest@ =~= old(v)@.skip(end as int));
    assert(v@ =~= v@ + rest@.subrange(0, 0));
    let mut i: usize = 0;
    while i < rest.len()
        invariant
            i <= rest@.len(),
            v@ == old(v)@.subrange(0, start as int) + rest@.subrange(0, i as int),
            rest@ == old(v)@.skip(end as int),
        decreases rest@.len() - i,
    {
        let item = rest[i];
        v.push(item);
        assert(v@ =~= old(v)@.subrange(0, start as int) + rest@.subrange(0, i as int + 1));
        i = i + 1;
    }
    assert(v@ =~= old(v)@.subrange(0, start as int) + old(v)@.skip(end as int));
    assert(tail@ =~= old(v)@.subrange(start as int, end as int));
    tail
}

/// Appends a copy of `other` to `v`.
pub(crate) fn extend_vec<T: Copy>(v: &mut Vec<T>, other: &Vec<T>)
    ensures
        final(v)@ == old(v)@ + other@,
{
    assert(v@ =~= v@ + other@.subrange(0, 0));
    let mut i: usize = 0;
    while i < other.len()
        invariant
            i <= other@.len(),
            v@ == old(v)@ + other@.subrange(0, i as int),
        decreases other@.len() - i,
    {
        let item = other[i];
        v.push(item);
        assert(v@ =~= old(v)@ + other@.subrange(0, i as int + 1));
        i = i + 1;
    }
    assert(v@ =~= old(v)@ + other@);
}

/// A fresh vector with the same elements as `v`.
fn copy_vec<T: Copy>(v: &Vec<T>) -> (other: Vec<T>)
    ensures
        other@ == v@,
{
    let mut other: Vec<T> = Vec::new();
    extend_vec(&mut other, v);
    other
}

/// Round trip of insertion and removal: splicing `t` into `s` at `pos` (the
/// shape `insert_char` and the text-input intent give the content) and then
/// draining that same range (the shape `drain_chars` gives it) returns
/// exactly `t` and restores the prior content.
pub proof fn lemma_insert_then_drain_round_trip(s: Seq<char>, t: Seq<char>, pos: int)
    requires
        0 <= pos <= s.len(),
    ensures
        (s.subrange(0, pos) + t + s.skip(pos)).subrange(pos, pos + t.len()) == t,
        (s.subrange(0, pos) + t + s.skip(pos)).subrange(0, pos) + (s.subrange(0, pos) + t
            + s.skip(pos)).skip(pos + t.len()) == s,
{
    let inserted = s.subrange(0, pos) + t + s.skip(pos);
    assert(inserted.subrange(pos, pos + t.len() as int) =~= t);
    assert(inserted.subrange(0, pos) + inserted.skip(pos + t.len() as int) =~= s);
}

} // verus!
