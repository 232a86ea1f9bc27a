//! The Projection Renderer's pure half: mapping a `SectionState` to its
//! display text. If no category is active the text is a single invisible
//! placeholder (it preserves layout height in the viewer); otherwise it is
//! the category letter followed by the number's decimal digits, if any.

use vstd::prelude::*;
use vstd::string::StringExecFns;
use crate::state::SectionState;

verus! {

/// Zero-width space: keeps vertical space in the viewer without a glyph.
pub const PLACEHOLDER: char = '\u{200b}';

/// The decimal digit character for `d`.
pub open spec fn digit_char(d: nat) -> char {
    if d == 0 {
        '0'
    } else if d == 1 {
        '1'
    } else if d == 2 {
        '2'
    } else if d == 3 {
        '3'
    } else if d == 4 {
        '4'
    } else if d == 5 {
        '5'
    } else if d == 6 {
        '6'
    } else if d == 7 {
        '7'
    } else if d == 8 {
        '8'
    } else {
        '9'
    }
}

/// The decimal representation of `n`, most significant digit first, with
/// no leading zeros (except for `n == 0` itself).
pub open spec fn decimal_digits(n: nat) -> Seq<char>
    decreases n,
{
    if n < 10 {
        seq![digit_char(n)]
    } else {
        decimal_digits(n / 10).push(digit_char(n % 10))
    }
}

/// The display text of a state: the placeholder when no category is
/// active, else the letter followed by the decimal number when present.
pub open spec fn display_chars(s: SectionState) -> Seq<char> {
    match s.category {
        None => seq![PLACEHOLDER],
        Some(c) => match s.number {
            None => seq![c],
            Some(n) => seq![c] + decimal_digits(n as nat),
        },
    }
}

fn digit_to_char(d: u64) -> (r: char)
    requires
        d < 10,
    ensures
        r == digit_char(d as nat),
{
    if d == 0 {
        '0'
    } else if d == 1 {
        '1'
    } else if d == 2 {
        '2'
    } else if d == 3 {
        '3'
    } else if d == 4 {
        '4'
    } else if d == 5 {
        '5'
    } else if d == 6 {
        '6'
    } else if d == 7 {
        '7'
    } else if d == 8 {
        '8'
    } else {
        '9'
    }
}

/// Relies on `String::push`: appends the given `char` to the end of the string.
#[verifier::external_body]
fn push_char(s: &mut String, c: char)
    ensures
        final(s)@ == old(s)@.push(c),
{
    s.push(c);
}

fn push_decimal(s: &mut String, n: u64)
    ensures
        final(s)@ == old(s)@ + decimal_digits(n as nat),
    decreases n,
{
    if n < 10 {
        push_char(s, digit_to_char(n));
        assert(old(s)@.push(digit_char(n as nat)) =~= old(s)@ + decimal_digits(n as nat));
    } else {
        push_decimal(s, n / 10);
        push_char(s, digit_to_char(n % 10));
        assert((old(s)@ + decimal_digits((n / 10) as nat)).push(digit_char((n % 10) as nat))
            =~= old(s)@ + decimal_digits(n as nat));
    }
}

/// Render a state snapshot as its display text.
pub fn section_segments_to_string(segments: &SectionState) -> (r: String)
    ensures
        r@ == display_chars(*segments),
{
    match segments.category {
        Some(c) => {
            let mut out = String::new();
            push_char(&mut out, c);
            assert(out@ =~= seq![c]);
            match segments.number {
                Some(n) => {
                    push_decimal(&mut out, n);
                    out
                },
                None => out,
            }
        },
        None => {
            let out = String::from_str("\u{200b}");
            proof {
                reveal_strlit("\u{200b}");
            }
            assert(out@ =~= seq![PLACEHOLDER]);
            out
        },
    }
}

} // verus!
