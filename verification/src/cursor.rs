use crate::position::Position;
use crate::scan::{lemma_scan_text_step, scan_char, scan_text};
use vstd::prelude::*;
use vstd::string::StrSliceExecFns;

verus! {

/// A cursor over a source text: it yields the text's codepoints one by one,
/// tracks the (line, column) position of the next unread codepoint across
/// the Unicode line-terminator conventions, holds at most one codepoint of
/// lookahead, and can save a marker from which a later call extracts the
/// slice of the original text up to the current reading position.
#[derive(Clone, Debug)]
pub struct Text<'a> {
    /// the whole source text
    source: &'a str,
    /// the source's length, counted in codepoints
    len: usize,
    /// how many codepoints have been pulled out of the source so far,
    /// a buffered lookahead codepoint included
    pulled: usize,
    /// position of the NEXT character to be returned by `next()`
    position: Position,
    /// the lookahead buffer: one codepoint pulled but not yet yielded
    lookahead: Option<char>,
    /// saved reading position, the start of a later slice
    marker: Option<usize>,
    /// whether the character consumed last was a carriage return
    last_was_cr: bool,
}

impl<'a> Text<'a> {
    /// The whole source text, as a sequence of codepoints.
    pub closed spec fn text(self) -> Seq<char> {
        self.source@
    }

    /// How many codepoints have been consumed (yielded by `next`) so far;
    /// equally, the index of the next codepoint to be yielded.
    pub closed spec fn consumed(self) -> int {
        self.pulled - (if self.lookahead is Some {
            1int
        } else {
            0int
        })
    }

    /// The saved marker, as a count of consumed codepoints, if one is set.
    pub closed spec fn marker_pos(self) -> Option<int> {
        match self.marker {
            Some(m) => Some(m as int),
            None => None,
        }
    }

    /// Whether the whole text has been consumed.
    pub open spec fn at_end(self) -> bool {
        self.consumed() == self.text().len()
    }

    /// The codepoint the next consuming call will yield, if any.
    pub open spec fn upcoming(self) -> Option<char> {
        if self.consumed() < self.text().len() {
            Some(self.text()[self.consumed()])
        } else {
            None
        }
    }

    /// The position of the next unread codepoint: what a reader of the text
    /// would assign to it under the line-break classification, derived from
    /// the consumed prefix alone.
    pub open spec fn current_position(self) -> Position {
        scan_text(self.text().take(self.consumed())).0
    }

    /// Well-formedness: the cached length matches the source, no more has
    /// been pulled than the source holds, the lookahead buffer (when full)
    /// holds exactly the codepoint pulled last, the marker (when set) is at
    /// or behind the reading position, and the stored position and
    /// carriage-return flag equal the scan of the consumed prefix.
    pub closed spec fn wf(self) -> bool {
        &&& self.len as nat == self.source@.len()
        &&& self.pulled <= self.len
        &&& (self.lookahead is Some ==> self.pulled >= 1 && self.lookahead == Some(
            self.source@[self.pulled - 1],
        ))
        &&& (self.marker is Some ==> self.marker->0 as int <= self.consumed())
        &&& (self.position, self.last_was_cr) == scan_text(self.source@.take(self.consumed()))
    }

    /// Creates a new `Text` that wraps the given source text, positioned at
    /// (1, 1) with nothing consumed, no lookahead and no marker.
    pub fn with_str(text: &'a str) -> (r: Self)
        ensures
            r.wf(),
            r.text() == text@,
            r.consumed() == 0,
            r.marker_pos() is None,
    {
        let len: usize = text.unicode_len();
        let r = Text {
            source: text,
            len,
            pulled: 0,
            position: Position::with(1, 1),
            lookahead: None,
            marker: None,
            last_was_cr: false,
        };
        proof {
            assert(text@.take(0) =~= Seq::<char>::empty());
        }
        r
    }

    /// Returns the position of the NEXT character that will be returned by
    /// `next()`: line and column of the first unread codepoint, as the
    /// line-break classification of the consumed prefix assigns them.
    pub fn position(&self) -> (r: &Position)
        requires
            self.wf(),
        ensures
            *r == self.current_position(),
    {
        &self.position
    }

    /// Returns the next char or None if the end of the text is reached, but
    /// does not consume the character. Neither the position nor the marker
    /// nor the count of consumed characters changes, however often it is
    /// called: peeking is observationally side-effect-free.
    pub fn peek_next(&mut self) -> (r: Option<char>)
        requires
            old(self).wf(),
        ensures
            final(self).wf(),
            final(self).text() == old(self).text(),
            final(self).consumed() == old(self).consumed(),
            final(self).marker_pos() == old(self).marker_pos(),
            final(self).current_position() == old(self).current_position(),
            r == old(self).upcoming(),
            r is None <==> old(self).at_end(),
    {
        if self.lookahead.is_none() {
            if self.pulled < self.len {
                let c = self.source.get_char(self.pulled);
                self.lookahead = Some(c);
                self.pulled = self.pulled + 1;
            }
        }
        self.lookahead
    }

    /// Returns the next character and advances the position according to the
    /// read character, or None once the text is exhausted; from then on every
    /// further call returns None and moves nothing.
    pub fn next(&mut self) -> (r: Option<char>)
        requires
            old(self).wf(),
        ensures
            final(self).wf(),
            final(self).text() == old(self).text(),
            final(self).marker_pos() == old(self).marker_pos(),
            r == old(self).upcoming(),
            r is None <==> old(self).at_end(),
            r is Some ==> final(self).consumed() == old(self).consumed() + 1,
            r is None ==> final(self).consumed() == old(self).consumed(),
    {
        let ghost pre = *self;
        let ch: Option<char>;
        if self.lookahead.is_some() {
            ch = self.lookahead;
            self.lookahead = None;
        } else if self.pulled < self.len {
            let c = self.source.get_char(self.pulled);
            self.pulled = self.pulled + 1;
            ch = Some(c);
        } else {
            ch = None;
        }
        match ch {
            Some(c) => {
                proof {
                    lemma_scan_text_step(self.source@, pre.consumed());
                    assert(self.source@.take(pre.consumed() + 1) == self.text().take(
                        self.consumed(),
                    ));
                }
                self.advance_position(c);
            },
            None => {},
        }
        ch
    }

    /// Sets the marker at the current reading position; a marker set earlier
    /// is discarded. A codepoint sitting in the lookahead buffer is still
    /// unread, so it lies after the marker.
    pub fn set_marker(&mut self)
        requires
            old(self).wf(),
        ensures
            final(self).wf(),
            final(self).text() == old(self).text(),
            final(self).consumed() == old(self).consumed(),
            final(self).marker_pos() == Some(old(self).consumed()),
    {
        let rp: usize = if self.lookahead.is_some() {
            self.pulled - 1
        } else {
            self.pulled
        };
        self.marker = Some(rp);
    }

    /// Clears the actual marker if one is stored.
    pub fn clear_marker(&mut self)
        requires
            old(self).wf(),
        ensures
            final(self).wf(),
            final(self).text() == old(self).text(),
            final(self).consumed() == old(self).consumed(),
            final(self).marker_pos() is None,
    {
        self.marker = None;
    }

    /// Returns `true` when a marker is actually set.
    pub fn has_marker(&self) -> (r: bool)
        ensures
            r == (self.marker_pos() is Some),
    {
        self.marker.is_some()
    }

    /// Returns a string slice reference from the set marker up to (excluding)
    /// the current reading position: exactly the codepoints of the original
    /// text between the two, however many times the text was peeked at in
    /// between. Calling it without a marker set is a caller error.
    pub fn slice_from_marker(&self) -> (r: &'a str)
        requires
            self.wf(),
            self.marker_pos() is Some,
        ensures
            r@ == self.text().subrange(self.marker_pos()->0, self.consumed()),
    {
        let m: usize = self.marker.unwrap();
        let rp: usize = if self.lookahead.is_some() {
            self.pulled - 1
        } else {
            self.pulled
        };
        let s: &'a str = self.source;
        s.substring_char(m, rp)
    }

    /// Applies the line-break classification of one consumed character to the
    /// stored position and carriage-return flag.
    fn advance_position(&mut self, c: char)
        ensures
            final(self).source == old(self).source,
            final(self).len == old(self).len,
            final(self).pulled == old(self).pulled,
            final(self).lookahead == old(self).lookahead,
            final(self).marker == old(self).marker,
            (final(self).position, final(self).last_was_cr) == scan_char(
                old(self).position,
                old(self).last_was_cr,
                c,
            ),
    {
        if c == '\r' {
            self.last_was_cr = true;
            self.position.advance_line();
        } else if c == '\n' {
            if !self.last_was_cr {
                self.position.advance_line();
            }
            self.last_was_cr = false;
        } else if c == '\u{000b}' {
            if self.position.line < u32::MAX {
                self.position.line = self.position.line + 1;
            }
            self.last_was_cr = false;
        } else if c == '\u{000c}' || c == '\u{0085}' || c == '\u{2028}' || c == '\u{2029}' {
            self.last_was_cr = false;
            self.position.advance_line();
        } else {
            self.last_was_cr = false;
            self.position.advance_char();
        }
    }
}

} // verus!
