use crate::position::{sat_inc, Position};
use vstd::prelude::*;

verus! {

/// The state a cursor's position tracking carries: the position of the next
/// unread character, and whether the character consumed last was a carriage
/// return (so that a following line feed completes a CRLF pair instead of
/// starting a line of its own).
///
/// Line-break classification of one consumed character:
/// - `'\r'` advances the line and records that a carriage return was seen;
/// - `'\n'` advances the line only when the preceding character was not a
///   carriage return, and always clears that flag, so CRLF counts as a single
///   line break;
/// - U+000B (vertical tab) increments the line counter but leaves the column
///   where it was;
/// - U+000C (form feed), U+0085 (next line), U+2028 (line separator) and
///   U+2029 (paragraph separator) each advance the line;
/// - every other character advances the column by one.
pub open spec fn scan_char(p: Position, last_cr: bool, c: char) -> (Position, bool) {
    if c == '\r' {
        (Position { line: sat_inc(p.line), column: 1 }, true)
    } else if c == '\n' {
        if last_cr {
            (p, false)
        } else {
            (Position { line: sat_inc(p.line), column: 1 }, false)
        }
    } else if c == '\u{000b}' {
        (Position { line: sat_inc(p.line), column: p.column }, false)
    } else if c == '\u{000c}' || c == '\u{0085}' || c == '\u{2028}' || c == '\u{2029}' {
        (Position { line: sat_inc(p.line), column: 1 }, false)
    } else {
        (Position { line: p.line, column: sat_inc(p.column) }, false)
    }
}

/// Folds the line-break classification over a whole sequence of characters,
/// starting from the given position-tracking state.
pub open spec fn scan_seq(p: Position, last_cr: bool, s: Seq<char>) -> (Position, bool)
    decreases s.len(),
{
    if s.len() <= 0 {
        (p, last_cr)
    } else {
        let st = scan_char(p, last_cr, s[0]);
        scan_seq(st.0, st.1, s.drop_first())
    }
}

/// The state of a cursor that has consumed nothing yet: position (1, 1), no
/// carriage return seen.
pub open spec fn start_pos() -> Position {
    Position { line: 1, column: 1 }
}

/// The position-tracking state after consuming exactly the characters of `s`
/// from the start of a text: the (line, column) a reader would assign to the
/// character that follows `s`.
pub open spec fn scan_text(s: Seq<char>) -> (Position, bool) {
    scan_seq(start_pos(), false, s)
}

/// Scanning one more character is one more step of the classification rule.
pub proof fn lemma_scan_seq_snoc(p: Position, last_cr: bool, s: Seq<char>, c: char)
    ensures
        scan_seq(p, last_cr, s.push(c)) == ({
            let st = scan_seq(p, last_cr, s);
            scan_char(st.0, st.1, c)
        }),
    decreases s.len(),
{
    if s.len() == 0 {
        let st = scan_char(p, last_cr, c);
        assert(s.push(c).drop_first() =~= s);
        assert(scan_seq(p, last_cr, s.push(c)) == scan_seq(st.0, st.1, s));
    } else {
        let st = scan_char(p, last_cr, s[0]);
        assert(s.push(c).drop_first() =~= s.drop_first().push(c));
        assert(scan_seq(p, last_cr, s.push(c)) == scan_seq(st.0, st.1, s.drop_first().push(c)));
        lemma_scan_seq_snoc(st.0, st.1, s.drop_first(), c);
    }
}

/// The state after consuming `i + 1` characters of a text follows from the
/// state after consuming `i` of them by one step of the classification rule.
pub proof fn lemma_scan_text_step(s: Seq<char>, i: int)
    requires
        0 <= i < s.len(),
    ensures
        scan_text(s.take(i + 1)) == ({
            let st = scan_text(s.take(i));
            scan_char(st.0, st.1, s[i])
        }),
{
    assert(s.take(i + 1) =~= s.take(i).push(s[i]));
    lemma_scan_seq_snoc(start_pos(), false, s.take(i), s[i]);
}

/// CRLF collapse: after any already-consumed prefix, consuming the
/// two-character sequence `"\r\n"` advances the line counter exactly once
/// (not twice), resets the column to 1, and leaves no pending carriage
/// return behind.
pub proof fn lemma_crlf_collapses(s: Seq<char>)
    ensures
        ({
            let before = scan_text(s);
            let after = scan_text(s.push('\r').push('\n'));
            &&& after.0.line == sat_inc(before.0.line)
            &&& after.0.column == 1
            &&& !after.1
        }),
{
    lemma_scan_seq_snoc(start_pos(), false, s, '\r');
    lemma_scan_seq_snoc(start_pos(), false, s.push('\r'), '\n');
}

} // verus!
