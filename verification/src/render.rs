//! The progress display: bar rendering, layout arithmetic, header
//! truncation, and the composition of the one line that is redrawn in
//! place.
//!
//! Everything is a pure function from the session's values and the
//! terminal's column count to strings; the host writes them out.
use vstd::prelude::*;

use crate::icons::IconSet;
use crate::icons::spec_empty;
use crate::icons::spec_fill;
use crate::width::char_cols;
use crate::width::char_display_width;
use crate::width::text_cols;
use vstd::arithmetic::div_mod::lemma_fundamental_div_mod;
use vstd::arithmetic::div_mod::lemma_fundamental_div_mod_converse;
use vstd::arithmetic::div_mod::lemma_mod_bound;
use vstd::arithmetic::div_mod::lemma_multiply_divide_le;
use vstd::arithmetic::div_mod::lemma_multiply_divide_lt;
use vstd::arithmetic::div_mod::lemma_div_pos_is_pos;
use vstd::arithmetic::mul::lemma_mul_nonnegative;

verus! {

/// The smaller of two integers.
pub open spec fn spec_min_int(a: int, b: int) -> int {
    if a <= b {
        a
    } else {
        b
    }
}

/// `scale * num / den`, rounded to the nearest integer (halves round
/// up), clamped to `[0, scale]`; zero when `den` is zero or when `num`
/// exceeds `den` the ratio counts as one.
pub open spec fn spec_rounded_scaled(num: u64, den: u64, scale: u64) -> int {
    if den == 0 {
        0
    } else {
        let n = spec_min_int(num as int, den as int);
        spec_min_int((2 * n * scale + den) / (2 * den), scale as int)
    }
}

/// `scale * num / den`, rounded down, clamped to `[0, scale]` the same
/// way.
pub open spec fn spec_floor_scaled(num: u64, den: u64, scale: u64) -> int {
    if den == 0 {
        0
    } else {
        let n = spec_min_int(num as int, den as int);
        spec_min_int(n * scale / (den as int), scale as int)
    }
}

/// Which eighth of a cell the fractional remainder of
/// `scale * num / den` fills: `floor(8 * frac)`, in `[0, 7]` whenever
/// the inputs are in range.
pub open spec fn spec_eighth_index(num: u64, den: u64, scale: u64) -> int {
    if den == 0 {
        0
    } else {
        let n = spec_min_int(num as int, den as int);
        8 * n * scale / (den as int) - 8 * (n * scale / (den as int))
    }
}

/// Rounds `scale * num / den` to the nearest whole number of cells,
/// never past `scale`.
pub fn rounded_scaled(num: u64, den: u64, scale: u64) -> (r: u64)
    requires
        scale <= 100_000,
    ensures
        r == spec_rounded_scaled(num, den, scale),
        r <= scale,
{
    if den == 0 {
        return 0;
    }
    let n: u128 = if num <= den {
        num as u128
    } else {
        den as u128
    };
    let s: u128 = scale as u128;
    let d: u128 = den as u128;
    proof {
        assert((2 * (n as int)) * (s as int) <= 2 * 0xffff_ffff_ffff_ffff * 100_000int)
            by (nonlinear_arith)
            requires
                n <= 0xffff_ffff_ffff_ffff,
                s <= 100_000,
        {
        }
    }
    let raw: u128 = (2 * n * s + d) / (2 * d);
    if raw >= scale as u128 {
        scale
    } else {
        raw as u64
    }
}

/// Rounds `scale * num / den` down to whole cells, never past `scale`.
pub fn floor_scaled(num: u64, den: u64, scale: u64) -> (r: u64)
    requires
        scale <= 100_000,
    ensures
        r == spec_floor_scaled(num, den, scale),
        r <= scale,
{
    if den == 0 {
        return 0;
    }
    let n: u128 = if num <= den {
        num as u128
    } else {
        den as u128
    };
    let s: u128 = scale as u128;
    let d: u128 = den as u128;
    proof {
        assert((n as int) * (s as int) <= 0xffff_ffff_ffff_ffff * 100_000int) by (nonlinear_arith)
            requires
                n <= 0xffff_ffff_ffff_ffff,
                s <= 100_000,
        {
        }
    }
    let raw: u128 = n * s / d;
    if raw >= scale as u128 {
        scale
    } else {
        raw as u64
    }
}

/// The eighth-cell index of the fractional remainder.
pub fn eighth_index(num: u64, den: u64, scale: u64) -> (r: u64)
    requires
        scale <= 100_000,
    ensures
        r == spec_eighth_index(num, den, scale),
        r < 8,
{
    if den == 0 {
        return 0;
    }
    let n: u128 = if num <= den {
        num as u128
    } else {
        den as u128
    };
    let s: u128 = scale as u128;
    let d: u128 = den as u128;
    proof {
        assert((n as int) * (s as int) <= 0xffff_ffff_ffff_ffff * 100_000int) by (nonlinear_arith)
            requires
                n <= 0xffff_ffff_ffff_ffff,
                s <= 100_000,
        {
        }
        assert((8 * (n as int)) * (s as int) <= 8 * 0xffff_ffff_ffff_ffff * 100_000int)
            by (nonlinear_arith)
            requires
                n <= 0xffff_ffff_ffff_ffff,
                s <= 100_000,
        {
        }
    }
    let whole: u128 = n * s / d;
    let eighths: u128 = 8 * n * s / d;
    proof {
        let xi: int = (n as int) * (s as int);
        let di: int = d as int;
        let q: int = xi / di;
        let rr: int = xi % di;
        lemma_fundamental_div_mod(xi, di);
        lemma_mod_bound(xi, di);
        assert((8 * (n as int)) * (s as int) == 8 * xi) by (nonlinear_arith)
            requires
                xi == (n as int) * (s as int),
        {
        }
        assert(whole == q);
        assert(eighths == 8 * xi / di);
        let k: int = (8 * rr) / di;
        let r2: int = (8 * rr) % di;
        lemma_fundamental_div_mod(8 * rr, di);
        lemma_mod_bound(8 * rr, di);
        assert(8 * xi == (8 * q + k) * di + r2) by (nonlinear_arith)
            requires
                xi == di * q + rr,
                8 * rr == di * k + r2,
        {
        }
        lemma_fundamental_div_mod_converse(8 * xi, di, 8 * q + k, r2);
        assert(eighths == 8 * q + k);
        assert(8 * rr < di * 8) by (nonlinear_arith)
            requires
                rr < di,
        {
        }
        lemma_multiply_divide_lt(8 * rr, di, 8);
        lemma_div_pos_is_pos(8 * rr, di);
        assert(eighths - 8 * whole == k);
        assert(spec_eighth_index(num, den, scale) == 8 * xi / di - 8 * q);
    }
    (eighths - 8 * whole) as u64
}

/// How many cells of a bar of `width` cells are shown filled: the rich
/// glyph set rounds down (a partial cell covers the remainder), the
/// others round to nearest.
pub open spec fn spec_filled_cells(s: IconSet, num: u64, den: u64, width: u64) -> int {
    if s is NerdFont {
        spec_floor_scaled(num, den, width)
    } else {
        spec_rounded_scaled(num, den, width)
    }
}

/// Whether a rich bar shows a fractional partial cell after the filled
/// ones.
pub open spec fn spec_has_partial(s: IconSet, num: u64, den: u64, width: u64) -> bool {
    &&& s is NerdFont
    &&& spec_filled_cells(s, num, den, width) < width
    &&& 1 <= spec_eighth_index(num, den, width) <= 7
}

/// The partial-cell glyph for the `idx`-th eighth (meaningful for
/// `1 <= idx <= 7`).
pub open spec fn spec_partial_char(idx: int) -> char {
    if idx <= 1 {
        '▏'
    } else if idx == 2 {
        '▎'
    } else if idx == 3 {
        '▍'
    } else if idx == 4 {
        '▌'
    } else if idx == 5 {
        '▋'
    } else if idx == 6 {
        '▊'
    } else {
        '▉'
    }
}

/// How many columns of the bar are covered: the filled cells, plus one
/// for the partial cell when it is shown.
pub open spec fn spec_filled_cols(s: IconSet, num: u64, den: u64, width: u64) -> int {
    spec_filled_cells(s, num, den, width) + if spec_has_partial(s, num, den, width) {
        1int
    } else {
        0int
    }
}

/// The `width` cells between the brackets of a bar showing the ratio
/// `num / den`.
pub open spec fn spec_bar_cells(s: IconSet, num: u64, den: u64, width: u64) -> Seq<char> {
    let full = spec_filled_cells(s, num, den, width) as nat;
    let fills = Seq::new(full, |i: int| spec_fill(s));
    if spec_has_partial(s, num, den, width) {
        fills + seq![spec_partial_char(spec_eighth_index(num, den, width))] + Seq::new(
            (width - full - 1) as nat,
            |i: int| spec_empty(s),
        )
    } else {
        fills + Seq::new((width - full) as nat, |i: int| spec_empty(s))
    }
}

/// A whole bar: the cells between one `[` and one `]`.
pub open spec fn spec_bar(s: IconSet, num: u64, den: u64, width: u64) -> Seq<char> {
    seq!['['] + spec_bar_cells(s, num, den, width) + seq![']']
}

/// The filled cells never outgrow the bar: the cell row is exactly
/// `width` cells, and the filled columns — the fractional partial cell
/// counted as one — never exceed `width`.
pub proof fn lemma_bar_fill_within_width(s: IconSet, num: u64, den: u64, width: u64)
    ensures
        0 <= spec_filled_cells(s, num, den, width) <= width,
        0 <= spec_filled_cols(s, num, den, width) <= width,
        spec_bar_cells(s, num, den, width).len() == width,
{
    if den != 0 {
        let n = spec_min_int(num as int, den as int);
        lemma_mul_nonnegative(n, width as int);
        lemma_div_pos_is_pos(n * (width as int), den as int);
        lemma_mul_nonnegative(2 * n, width as int);
        assert(2 * n * (width as int) == 2 * (n * (width as int))) by (nonlinear_arith);
        lemma_div_pos_is_pos(2 * n * (width as int) + den as int, 2 * (den as int));
    }
}

/// The one-character string of the partial-cell glyph.
fn partial_str(idx: u64) -> (r: &'static str)
    requires
        1 <= idx <= 7,
    ensures
        r@ == seq![spec_partial_char(idx as int)],
{
    proof {
        reveal_strlit("▏");
        reveal_strlit("▎");
        reveal_strlit("▍");
        reveal_strlit("▌");
        reveal_strlit("▋");
        reveal_strlit("▊");
        reveal_strlit("▉");
    }
    let r: &'static str = match idx {
        1 => "▏",
        2 => "▎",
        3 => "▍",
        4 => "▌",
        5 => "▋",
        6 => "▊",
        _ => "▉",
    };
    proof {
        assert(r@ =~= seq![spec_partial_char(idx as int)]);
    }
    r
}

/// Renders one bracketed bar of `width` cells showing the ratio
/// `num / den` (clamped to `[0, 1]`; a zero `den` counts as ratio
/// zero). The rich glyph set adds a partial cell for the remainder;
/// every set pads the rest with empty cells.
pub fn render_bar(num: u64, den: u64, width: u64, icons: IconSet) -> (r: String)
    requires
        width <= 100_000,
    ensures
        r@ == spec_bar(icons, num, den, width),
        r@.len() == width + 2,
{
    proof {
        reveal_strlit("[");
        reveal_strlit("]");
        lemma_bar_fill_within_width(icons, num, den, width);
    }
    let rich = icons == IconSet::NerdFont;
    let n_full: u64 = if rich {
        floor_scaled(num, den, width)
    } else {
        rounded_scaled(num, den, width)
    };
    let mut s = String::new();
    s.append("[");
    proof {
        assert(s@ =~= seq!['['] + Seq::new(0nat, |j: int| spec_fill(icons)));
    }
    let mut i: u64 = 0;
    while i < n_full
        invariant
            i <= n_full,
            n_full == spec_filled_cells(icons, num, den, width),
            n_full <= width <= 100_000,
            s@ == seq!['['] + Seq::new(i as nat, |j: int| spec_fill(icons)),
        decreases n_full - i,
    {
        s.append(icons.fill());
        i = i + 1;
        proof {
            assert(s@ =~= seq!['['] + Seq::new(i as nat, |j: int| spec_fill(icons)));
        }
    }
    let ghost fills = Seq::new(n_full as nat, |j: int| spec_fill(icons));
    let mut cells: u64 = n_full;
    if rich && n_full < width {
        let idx = eighth_index(num, den, width);
        if idx >= 1 {
            s.append(partial_str(idx));
            cells = cells + 1;
        }
    }
    proof {
        if spec_has_partial(icons, num, den, width) {
            assert(s@ == seq!['['] + fills + seq![
                spec_partial_char(spec_eighth_index(num, den, width)),
            ]);
            assert(cells == n_full + 1);
        } else {
            assert(s@ == seq!['['] + fills);
            assert(cells == n_full);
        }
    }
    let ghost head = s@;
    let ghost c0 = cells;
    while cells < width
        invariant
            c0 <= cells <= width,
            width <= 100_000,
            s@ == head + Seq::new((cells - c0) as nat, |j: int| spec_empty(icons)),
        decreases width - cells,
    {
        s.append(icons.empty());
        cells = cells + 1;
        proof {
            assert(s@ =~= head + Seq::new((cells - c0) as nat, |j: int| spec_empty(icons)));
        }
    }
    s.append("]");
    proof {
        assert(s@ =~= spec_bar(icons, num, den, width));
    }
    s
}

/// `x` clamped to `[lo, hi]` (for `lo <= hi`).
pub open spec fn spec_clamp_int(x: int, lo: int, hi: int) -> int {
    if x < lo {
        lo
    } else if x > hi {
        hi
    } else {
        x
    }
}

/// The widths of the main bar and the volume bar inside `available`
/// columns: the main bar aims at three quarters of the space and is
/// clamped to `[10, 60]`, the volume bar takes a third of the main one
/// with a floor of five cells, and a final guard keeps the pair within
/// the space.
pub open spec fn spec_layout(available: int) -> (int, int) {
    let max_bar = if available >= 5 {
        available - 5
    } else {
        0
    };
    let target = available * 3 / 4;
    let bar0 = if target >= 15 {
        target
    } else {
        max_bar
    };
    let bar1 = spec_clamp_int(bar0, 10, 60);
    let bar2 = if bar1 <= max_bar {
        bar1
    } else {
        max_bar
    };
    let vol = if bar2 / 3 >= 5 {
        bar2 / 3
    } else {
        5
    };
    let bar3 = if bar2 + vol > available {
        let b = if available >= vol {
            available - vol
        } else {
            0
        };
        if b >= 10 {
            b
        } else {
            10
        }
    } else {
        bar2
    };
    (bar3, vol)
}

/// Sizes the two bars for `available` columns of free space. With
/// fifteen or more free columns the two bars always fit: together they
/// never exceed the space, the main bar stays in `[10, 60]` and the
/// volume bar at five cells or more.
pub fn compute_layout(available: u64) -> (r: (u64, u64))
    requires
        available <= 100_000,
    ensures
        r.0 == spec_layout(available as int).0,
        r.1 == spec_layout(available as int).1,
        r.0 <= 100_000,
        5 <= r.1 <= 100_000,
        available >= 15 ==> r.0 + r.1 <= available && 10 <= r.0 <= 60,
{
    let max_bar = if available >= 5 {
        available - 5
    } else {
        0
    };
    let target = available * 3 / 4;
    let bar0 = if target >= 15 {
        target
    } else {
        max_bar
    };
    let bar1 = if bar0 < 10 {
        10
    } else if bar0 > 60 {
        60
    } else {
        bar0
    };
    let bar2 = if bar1 <= max_bar {
        bar1
    } else {
        max_bar
    };
    let vol = if bar2 / 3 >= 5 {
        bar2 / 3
    } else {
        5
    };
    proof {
        if available >= 15 {
            assert(bar2 <= available - 5);
            if bar2 / 3 >= 5 {
                lemma_multiply_divide_lt(bar2 as int, 3, available - 9);
            }
            assert(vol <= available - 10);
        }
    }
    let bar3 = if bar2 + vol > available {
        let b = if available >= vol {
            available - vol
        } else {
            0
        };
        if b >= 10 {
            b
        } else {
            10
        }
    } else {
        bar2
    };
    (bar3, vol)
}

/// The key legend appended in interactive sessions; its play/pause
/// label mirrors the live paused state.
pub open spec fn spec_controls_hint(s: IconSet, paused: bool) -> Seq<char> {
    "  "@ + crate::icons::spec_rewind(s) + " [SPACE/"@ + (if paused {
        "play "@
    } else {
        "pause"@
    }) + "] "@ + crate::icons::spec_fast_forward(s)
        + "  [↑↓/kj] vol  [m] mute  [q] quit"@
}

/// Builds the interactive key legend: seek, play/pause (labelled by the
/// live paused state), volume, mute and quit.
pub fn controls_hint(icons: IconSet, paused: bool) -> (r: String)
    ensures
        r@ == spec_controls_hint(icons, paused),
{
    let mut s = String::from_str("  ");
    s.append(icons.rewind());
    s.append(" [SPACE/");
    s.append(if paused {
        "play "
    } else {
        "pause"
    });
    s.append("] ");
    s.append(icons.fast_forward());
    s.append("  [↑↓/kj] vol  [m] mute  [q] quit");
    s
}

/// The header's text: artist and title joined by an em dash, either
/// alone when the other is missing, nothing when both are.
pub open spec fn spec_header_text(artist: Option<Seq<char>>, title: Option<Seq<char>>) -> Option<
    Seq<char>,
> {
    match (artist, title) {
        (Some(a), Some(t)) => Some(a + " — "@ + t),
        (Some(a), None) => Some(a),
        (None, Some(t)) => Some(t),
        (None, None) => None,
    }
}

/// Precomputes the header line shown above the progress line: the
/// now-playing glyph, two spaces, then artist and title joined by an em
/// dash; nothing when neither is known.
pub fn compose_header(icons: IconSet, artist: Option<&str>, title: Option<&str>) -> (r: Option<
    String,
>)
    ensures
        ({
            let text = spec_header_text(
                match artist {
                    Some(a) => Some(a@),
                    None => None,
                },
                match title {
                    Some(t) => Some(t@),
                    None => None,
                },
            );
            match text {
                Some(t) => r is Some && r->0@ == crate::icons::spec_music(icons) + "  "@ + t,
                None => r is None,
            }
        }),
{
    let text: Option<String> = match (artist, title) {
        (Some(a), Some(t)) => {
            let mut joined = String::from_str(a);
            joined.append(" — ");
            joined.append(t);
            Some(joined)
        },
        (Some(a), None) => Some(String::from_str(a)),
        (None, Some(t)) => Some(String::from_str(t)),
        (None, None) => None,
    };
    match text {
        Some(t) => {
            let mut line = String::from_str(icons.music());
            line.append("  ");
            line.append(t.as_str());
            Some(line)
        },
        None => None,
    }
}

/// How many leading characters of `s` fit in `budget` display columns:
/// characters are taken from the front while their widths still fit.
/// Widths never being negative, this is the longest prefix whose total
/// width stays within the budget.
pub open spec fn spec_truncate_count(s: Seq<char>, budget: int) -> nat
    decreases s.len(),
{
    if s.len() == 0 {
        0
    } else if char_display_width(s[0]) > budget {
        0
    } else {
        (1 + spec_truncate_count(s.drop_first(), budget - char_display_width(s[0]))) as nat
    }
}

/// The truncation point is the widest fitting prefix: what it keeps
/// stays within the budget, and keeping one character more would
/// exceed it.
pub proof fn lemma_truncate_count_is_widest_fit(s: Seq<char>, budget: int)
    requires
        budget >= 0,
    ensures
        spec_truncate_count(s, budget) <= s.len(),
        text_cols(s.take(spec_truncate_count(s, budget) as int)) <= budget,
        spec_truncate_count(s, budget) < s.len() ==> text_cols(
            s.take(spec_truncate_count(s, budget) as int + 1),
        ) > budget,
    decreases s.len(),
{
    let k = spec_truncate_count(s, budget);
    if s.len() == 0 {
        assert(s.take(0) =~= Seq::<char>::empty());
    } else if char_display_width(s[0]) > budget {
        assert(s.take(0) =~= Seq::<char>::empty());
        assert(s.take(1) =~= seq![s[0]]);
        assert(text_cols(seq![s[0]]) == char_display_width(s[0]) + text_cols(
            seq![s[0]].drop_first(),
        ));
        assert(seq![s[0]].drop_first() =~= Seq::<char>::empty());
    } else {
        let w = char_display_width(s[0]);
        let rest = s.drop_first();
        let k1 = spec_truncate_count(rest, budget - w);
        lemma_truncate_count_is_widest_fit(rest, budget - w);
        assert(k == 1 + k1);
        assert(s.take(k as int)[0] == s[0]);
        assert(s.take(k as int).drop_first() =~= rest.take(k1 as int));
        assert(text_cols(s.take(k as int)) == w + text_cols(rest.take(k1 as int)));
        if k < s.len() {
            assert(s.take(k as int + 1)[0] == s[0]);
            assert(s.take(k as int + 1).drop_first() =~= rest.take(k1 as int + 1));
            assert(text_cols(s.take(k as int + 1)) == w + text_cols(rest.take(k1 as int + 1)));
        }
    }
}

/// Counts how many leading characters of `s` fit in `budget` display
/// columns.
pub fn truncate_count(s: &str, budget: usize) -> (k: usize)
    ensures
        k == spec_truncate_count(s@, budget as int),
        k <= s@.len(),
{
    let n = s.unicode_len();
    let mut i: usize = 0;
    let mut rem: usize = budget;
    proof {
        assert(s@.skip(0) =~= s@);
    }
    while i < n
        invariant
            i <= n,
            n == s@.len(),
            spec_truncate_count(s@, budget as int) == i + spec_truncate_count(
                s@.skip(i as int),
                rem as int,
            ),
        decreases n - i,
    {
        let w = char_cols(s.get_char(i));
        proof {
            assert(s@.skip(i as int)[0] == s@[i as int]);
            assert(s@.skip(i as int).drop_first() =~= s@.skip(i + 1));
        }
        if w > rem {
            return i;
        }
        rem = rem - w;
        i = i + 1;
    }
    proof {
        assert(s@.skip(n as int) =~= Seq::<char>::empty());
    }
    i
}

/// Below this many terminal columns the progress line is suppressed
/// entirely rather than wrapped into garbled output.
pub const MIN_RENDER_WIDTH: u16 = 40;

/// The column count assumed when the terminal will not say.
pub const DEFAULT_TERM_WIDTH: u16 = 80;

/// Main-bar width used when the terminal will not report its size.
pub const DEFAULT_BAR_WIDTH: u64 = 30;

/// Volume-bar width used when the terminal will not report its size.
pub const DEFAULT_VOL_BAR_WIDTH: u64 = 10;

/// `a + b`, capped at `usize::MAX` — the saturating addition the
/// overhead sum uses.
pub open spec fn spec_cap_add(a: int, b: int) -> int {
    if a + b > usize::MAX as int {
        usize::MAX as int
    } else {
        a + b
    }
}

/// The display width of `s` as the executable width sum reports it:
/// capped at `usize::MAX`.
pub open spec fn spec_tc(s: Seq<char>) -> int {
    if text_cols(s) > usize::MAX as nat {
        usize::MAX as int
    } else {
        text_cols(s) as int
    }
}

/// The bold head of the progress line: the now-playing prefix (rich
/// set only) and the play or pause icon.
pub open spec fn spec_progress_lead(s: IconSet, paused: bool) -> Seq<char> {
    (if s is NerdFont {
        crate::icons::spec_music(s) + " "@
    } else {
        Seq::<char>::empty()
    }) + (if paused {
        crate::icons::spec_pause(s)
    } else {
        crate::icons::spec_play(s)
    })
}

/// The completion percentage shown on the line: the ratio rounded to
/// whole percent, in `[0, 100]`.
pub open spec fn spec_percent(elapsed_ns: u64, total_ns: u64) -> int {
    spec_rounded_scaled(elapsed_ns, total_ns, 100)
}

/// Everything of the progress line after the lead: times, main bar,
/// percent, volume icon, volume bar, volume percent, and — in
/// interactive sessions — the key legend.
pub open spec fn spec_progress_rest(
    s: IconSet,
    elapsed_ns: u64,
    total_ns: u64,
    paused: bool,
    volume_pct: u32,
    interactive: bool,
    bar_w: u64,
    vol_w: u64,
) -> Seq<char> {
    "  "@ + crate::utils::spec_format_duration((elapsed_ns / 1_000_000_000) as nat) + " / "@
        + crate::utils::spec_format_duration((total_ns / 1_000_000_000) as nat) + "  "@ + spec_bar(
        s,
        elapsed_ns,
        total_ns,
        bar_w,
    ) + "  "@ + crate::utils::spec_decimal(spec_percent(elapsed_ns, total_ns) as nat) + "%  "@
        + crate::icons::spec_volume_icon(s, volume_pct) + " "@ + spec_bar(
        s,
        volume_pct as u64,
        crate::session::VOLUME_MAX_PCT as u64,
        vol_w,
    ) + " "@ + crate::utils::spec_decimal(volume_pct as nat) + "%"@ + (if interactive {
        spec_controls_hint(s, paused)
    } else {
        Seq::<char>::empty()
    })
}

/// The fixed display columns around the two bars: prefix, icon, times,
/// percent labels, volume icon and percent, spacing and brackets, and
/// the key legend — added with the same saturating sum the executable
/// code uses.
pub open spec fn spec_overhead(
    s: IconSet,
    elapsed_ns: u64,
    total_ns: u64,
    paused: bool,
    volume_pct: u32,
    interactive: bool,
) -> int {
    let prefix = if s is NerdFont {
        crate::icons::spec_music(s) + " "@
    } else {
        Seq::<char>::empty()
    };
    let icon = if paused {
        crate::icons::spec_pause(s)
    } else {
        crate::icons::spec_play(s)
    };
    let el = crate::utils::spec_format_duration((elapsed_ns / 1_000_000_000) as nat);
    let tot = crate::utils::spec_format_duration((total_ns / 1_000_000_000) as nat);
    let pct = crate::utils::spec_decimal(spec_percent(elapsed_ns, total_ns) as nat);
    let vicon = crate::icons::spec_volume_icon(s, volume_pct);
    let vpct = crate::utils::spec_decimal(volume_pct as nat);
    let suffix = if interactive {
        spec_controls_hint(s, paused)
    } else {
        Seq::<char>::empty()
    };
    spec_cap_add(
        spec_cap_add(
            spec_cap_add(
                spec_cap_add(
                    spec_cap_add(
                        spec_cap_add(
                            spec_cap_add(
                                spec_cap_add(
                                    spec_cap_add(
                                        spec_cap_add(
                                            spec_cap_add(
                                                spec_cap_add(
                                                    spec_cap_add(
                                                        spec_tc(prefix),
                                                        spec_tc(icon),
                                                    ),
                                                    2,
                                                ),
                                                spec_tc(el),
                                            ),
                                            3,
                                        ),
                                        spec_tc(tot),
                                    ),
                                    6,
                                ),
                                spec_tc(pct),
                            ),
                            3,
                        ),
                        spec_tc(vicon),
                    ),
                    4,
                ),
                spec_tc(vpct),
            ),
            1,
        ),
        spec_tc(suffix),
    )
}

/// The free columns left for the two bars once the overhead is taken
/// out of the terminal width.
pub open spec fn spec_available(cols: u16, overhead: int) -> int {
    if cols as int >= overhead {
        cols as int - overhead
    } else {
        0
    }
}

/// The two bar widths of a frame: computed from the terminal width and
/// the overhead, or the fixed defaults when the width is unknown.
pub open spec fn spec_bar_widths(
    cols: Option<u16>,
    s: IconSet,
    elapsed_ns: u64,
    total_ns: u64,
    paused: bool,
    volume_pct: u32,
    interactive: bool,
) -> (int, int) {
    match cols {
        Some(c) => spec_layout(
            spec_available(c, spec_overhead(s, elapsed_ns, total_ns, paused, volume_pct, interactive)),
        ),
        None => (DEFAULT_BAR_WIDTH as int, DEFAULT_VOL_BAR_WIDTH as int),
    }
}

/// The header line as shown: the full header when it fits the terminal
/// width, else the widest prefix that leaves room for an ellipsis,
/// counting display columns.
pub open spec fn spec_header_line(s: IconSet, h: Seq<char>, tw: int) -> Seq<char> {
    if spec_tc(h) > tw {
        let ell = if s is Ascii {
            "..."@
        } else {
            "…"@
        };
        let budget = if tw >= spec_tc(ell) {
            tw - spec_tc(ell)
        } else {
            0
        };
        h.take(spec_truncate_count(h, budget) as int) + ell
    } else {
        h
    }
}

/// One frame of the display, ready for the host to write: the optional
/// header line, the bold lead of the progress line, and the rest of
/// the progress line.
pub struct RenderFrame {
    /// The (possibly truncated) header line, when a header is known.
    pub header_line: Option<String>,
    /// The part of the progress line drawn bold: prefix and state icon.
    pub lead: String,
    /// Everything after the lead, key legend included.
    pub rest: String,
}

/// Sizes the two bars from the terminal width and the widths of the
/// already-built text components of the line.
#[verifier::rlimit(100)]
#[verifier::spinoff_prover]
fn frame_bar_widths(
    cols: Option<u16>,
    icons: IconSet,
    elapsed_ns: u64,
    total_ns: u64,
    paused: bool,
    volume_pct: u32,
    interactive: bool,
    prefix: &str,
    icon: &str,
    elapsed_str: &str,
    total_str: &str,
    pct_str: &str,
    vicon: &str,
    vpct_str: &str,
    suffix: &str,
) -> (w: (u64, u64))
    requires
        prefix@ == (if icons is NerdFont {
            crate::icons::spec_music(icons) + " "@
        } else {
            Seq::<char>::empty()
        }),
        icon@ == (if paused {
            crate::icons::spec_pause(icons)
        } else {
            crate::icons::spec_play(icons)
        }),
        elapsed_str@ == crate::utils::spec_format_duration((elapsed_ns / 1_000_000_000) as nat),
        total_str@ == crate::utils::spec_format_duration((total_ns / 1_000_000_000) as nat),
        pct_str@ == crate::utils::spec_decimal(spec_percent(elapsed_ns, total_ns) as nat),
        vicon@ == crate::icons::spec_volume_icon(icons, volume_pct),
        vpct_str@ == crate::utils::spec_decimal(volume_pct as nat),
        suffix@ == (if interactive {
            spec_controls_hint(icons, paused)
        } else {
            Seq::<char>::empty()
        }),
    ensures
        ({
            let bws = spec_bar_widths(cols, icons, elapsed_ns, total_ns, paused, volume_pct, interactive);
            w.0 == bws.0 && w.1 == bws.1
        }),
        w.0 <= 100_000,
        w.1 <= 100_000,
{
    match cols {
        Some(c) => {
            let o = crate::width::sat_add(
                crate::width::str_cols(prefix),
                crate::width::str_cols(icon),
            );
            let o = crate::width::sat_add(o, 2);
            let o = crate::width::sat_add(o, crate::width::str_cols(elapsed_str));
            let o = crate::width::sat_add(o, 3);
            let o = crate::width::sat_add(o, crate::width::str_cols(total_str));
            let o = crate::width::sat_add(o, 6);
            let o = crate::width::sat_add(o, crate::width::str_cols(pct_str));
            let o = crate::width::sat_add(o, 3);
            let o = crate::width::sat_add(o, crate::width::str_cols(vicon));
            let o = crate::width::sat_add(o, 4);
            let o = crate::width::sat_add(o, crate::width::str_cols(vpct_str));
            let o = crate::width::sat_add(o, 1);
            let o = crate::width::sat_add(o, crate::width::str_cols(suffix));
            proof {
                assert(o == spec_overhead(icons, elapsed_ns, total_ns, paused, volume_pct, interactive));
            }
            let available = crate::width::sat_sub(c as usize, o);
            compute_layout(available as u64)
        },
        None => (DEFAULT_BAR_WIDTH, DEFAULT_VOL_BAR_WIDTH),
    }
}

/// Builds the header line as shown for a terminal `tw` columns wide:
/// the header itself when it fits, else the widest prefix that leaves
/// room for an ellipsis.
fn header_display_line(icons: IconSet, h: &str, tw: usize) -> (t: String)
    ensures
        t@ == spec_header_line(icons, h@, tw as int),
{
    let hw = crate::width::str_cols(h);
    if hw > tw {
        let ell: &'static str = if icons == IconSet::Ascii {
            "..."
        } else {
            "…"
        };
        let ew = crate::width::str_cols(ell);
        let budget = crate::width::sat_sub(tw, ew);
        let k = truncate_count(h, budget);
        let mut t = String::from_str(h.substring_char(0, k));
        t.append(ell);
        proof {
            assert(h@.subrange(0, k as int) =~= h@.take(k as int));
        }
        t
    } else {
        String::from_str(h)
    }
}

/// Composes one frame of the progress display from the session's
/// values and the terminal width. On a terminal too narrow nothing is
/// rendered; with an unknown width fixed bar sizes and an assumed
/// 80-column width are used, as the live display does.
#[verifier::rlimit(100)]
#[verifier::spinoff_prover]
pub fn compose_frame(
    elapsed_ns: u64,
    total_ns: u64,
    paused: bool,
    volume_pct: u32,
    interactive: bool,
    icons: IconSet,
    header: Option<&str>,
    cols: Option<u16>,
) -> (r: Option<RenderFrame>)
    requires
        volume_pct <= crate::session::VOLUME_MAX_PCT,
    ensures
        (r is None) <==> (cols is Some && cols->0 < MIN_RENDER_WIDTH),
        r is Some ==> ({
            let bws = spec_bar_widths(cols, icons, elapsed_ns, total_ns, paused, volume_pct, interactive);
            let tw = if cols is Some {
                cols->0 as int
            } else {
                DEFAULT_TERM_WIDTH as int
            };
            &&& r->0.lead@ == spec_progress_lead(icons, paused)
            &&& r->0.rest@ == spec_progress_rest(
                icons,
                elapsed_ns,
                total_ns,
                paused,
                volume_pct,
                interactive,
                bws.0 as u64,
                bws.1 as u64,
            )
            &&& match header {
                None => r->0.header_line is None,
                Some(h) => r->0.header_line is Some && r->0.header_line->0@ == spec_header_line(
                    icons,
                    h@,
                    tw,
                ),
            }
        }),
{
    if let Some(c) = cols {
        if c < MIN_RENDER_WIDTH {
            return None;
        }
    }
    let mut prefix = String::new();
    if icons == IconSet::NerdFont {
        prefix.append(icons.music());
        prefix.append(" ");
    }
    proof {
        if icons is NerdFont {
            assert(prefix@ =~= crate::icons::spec_music(icons) + " "@);
        } else {
            assert(prefix@ =~= Seq::<char>::empty());
        }
    }
    let icon: &'static str = if paused {
        icons.pause()
    } else {
        icons.play()
    };
    let elapsed_str = crate::utils::format_duration(elapsed_ns / 1_000_000_000);
    let total_str = crate::utils::format_duration(total_ns / 1_000_000_000);
    let pct = rounded_scaled(elapsed_ns, total_ns, 100);
    let pct_str = crate::utils::decimal_string(pct);
    let vicon = icons.volume(volume_pct);
    let vpct_str = crate::utils::decimal_string(volume_pct as u64);
    let suffix = if interactive {
        controls_hint(icons, paused)
    } else {
        String::new()
    };
    let widths: (u64, u64) = frame_bar_widths(
        cols,
        icons,
        elapsed_ns,
        total_ns,
        paused,
        volume_pct,
        interactive,
        prefix.as_str(),
        icon,
        elapsed_str.as_str(),
        total_str.as_str(),
        pct_str.as_str(),
        vicon,
        vpct_str.as_str(),
        suffix.as_str(),
    );
    let bar = render_bar(elapsed_ns, total_ns, widths.0, icons);
    let vbar = render_bar(
        volume_pct as u64,
        crate::session::VOLUME_MAX_PCT as u64,
        widths.1,
        icons,
    );
    let mut lead = String::new();
    lead.append(prefix.as_str());
    lead.append(icon);
    proof {
        assert(lead@ =~= spec_progress_lead(icons, paused));
    }
    let mut rest = String::from_str("  ");
    rest.append(elapsed_str.as_str());
    rest.append(" / ");
    rest.append(total_str.as_str());
    rest.append("  ");
    rest.append(bar.as_str());
    rest.append("  ");
    rest.append(pct_str.as_str());
    rest.append("%  ");
    rest.append(vicon);
    rest.append(" ");
    rest.append(vbar.as_str());
    rest.append(" ");
    rest.append(vpct_str.as_str());
    rest.append("%");
    rest.append(suffix.as_str());
    proof {
        assert(rest@ =~= spec_progress_rest(
            icons,
            elapsed_ns,
            total_ns,
            paused,
            volume_pct,
            interactive,
            spec_bar_widths(
                cols,
                icons,
                elapsed_ns,
                total_ns,
                paused,
                volume_pct,
                interactive,
            ).0 as u64,
            spec_bar_widths(
                cols,
                icons,
                elapsed_ns,
                total_ns,
                paused,
                volume_pct,
                interactive,
            ).1 as u64,
        ));
    }
    let header_line: Option<String> = match header {
        None => None,
        Some(h) => {
            let tw: usize = match cols {
                Some(c) => c as usize,
                None => DEFAULT_TERM_WIDTH as usize,
            };
            Some(header_display_line(icons, h, tw))
        },
    };
    Some(RenderFrame { header_line, lead, rest })
}

} // verus!
