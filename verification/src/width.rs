//! Display-column widths of characters and strings.
//!
//! The terminal renderer lays text out by display columns, not by character
//! count: East Asian wide characters occupy two columns, control characters
//! none. The per-character column count comes from the `unicode-width`
//! crate; everything built on top of it is verified against the sum of
//! those per-character widths.
use vstd::prelude::*;

verus! {

/// The number of terminal columns one character occupies, as the
/// `unicode-width` crate computes it from its Unicode tables (a pure
/// function of the character; control characters count as zero).
pub uninterp spec fn char_display_width(c: char) -> nat;

/// The number of terminal columns `s` occupies: the sum of its
/// characters' widths.
pub open spec fn text_cols(s: Seq<char>) -> nat
    decreases s.len(),
{
    if s.len() == 0 {
        0
    } else {
        char_display_width(s[0]) + text_cols(s.drop_first())
    }
}

/// Relies on `unicode_width::UnicodeWidthChar::width`: a table lookup
/// that depends on the character alone; `None` (control characters) is
/// taken as zero columns, as the display treats them.
#[verifier::external_body]
pub fn char_cols(c: char) -> (r: usize)
    ensures
        r as nat == char_display_width(c),
{
    unicode_width::UnicodeWidthChar::width(c).unwrap_or(0)
}

/// The display width of `s` in columns, capped at `usize::MAX`.
pub fn str_cols(s: &str) -> (r: usize)
    ensures
        r as nat == min_nat(text_cols(s@), usize::MAX as nat),
{
    let n = s.unicode_len();
    let mut i: usize = 0;
    let mut acc: usize = 0;
    while i < n
        invariant
            i <= n,
            n == s@.len(),
            acc as nat == min_nat(text_cols(s@.take(i as int)), usize::MAX as nat),
        decreases n - i,
    {
        let w = char_cols(s.get_char(i));
        proof {
            lemma_text_cols_push(s@.take(i as int), s@[i as int]);
            assert(s@.take(i as int).push(s@[i as int]) =~= s@.take(i + 1));
        }
        acc = sat_add(acc, w);
        i = i + 1;
    }
    proof {
        assert(s@.take(n as int) =~= s@);
    }
    acc
}

/// The smaller of two naturals.
pub open spec fn min_nat(a: nat, b: nat) -> nat {
    if a <= b {
        a
    } else {
        b
    }
}

/// Addition on `usize` that stops at `usize::MAX` instead of wrapping.
pub fn sat_add(a: usize, b: usize) -> (r: usize)
    ensures
        r as nat == min_nat((a + b) as nat, usize::MAX as nat),
{
    if a > usize::MAX - b {
        usize::MAX
    } else {
        a + b
    }
}

/// Subtraction on `usize` that stops at zero.
pub fn sat_sub(a: usize, b: usize) -> (r: usize)
    ensures
        r == if a >= b {
            (a - b) as int
        } else {
            0
        },
{
    if a >= b {
        a - b
    } else {
        0
    }
}

/// Appending one character adds that character's width.
pub proof fn lemma_text_cols_push(s: Seq<char>, c: char)
    ensures
        text_cols(s.push(c)) == text_cols(s) + char_display_width(c),
    decreases s.len(),
{
    if s.len() == 0 {
        assert(s.push(c).drop_first() =~= Seq::<char>::empty());
        assert(s.push(c)[0] == c);
        assert(text_cols(s.push(c)) == char_display_width(c) + text_cols(s.push(c).drop_first()));
    } else {
        assert(s.push(c).drop_first() =~= s.drop_first().push(c));
        assert(s.push(c)[0] == s[0]);
        lemma_text_cols_push(s.drop_first(), c);
        assert(text_cols(s.push(c)) == char_display_width(s[0]) + text_cols(s.drop_first().push(c)));
    }
}

} // verus!
