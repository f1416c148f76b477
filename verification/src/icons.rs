//! The glyph palette of the progress display, and how one is chosen.
//!
//! Resolution priority: explicit flag, then the environment signal, then
//! Unicode if the terminal locale advertises UTF-8, then plain ASCII.
use vstd::prelude::*;

verus! {

/// Volume levels from this percentage up use the loud volume glyph;
/// nonzero levels below it use the quiet one, and zero the muted one.
pub const VOLUME_LOUD_THRESHOLD_PCT: u32 = 50;

/// Selects the glyph set used for the live progress display.
#[derive(Clone, Copy, PartialEq, Eq, Structural, Debug)]
pub enum IconSet {
    /// Nerd Font glyphs, the richest; needs a patched font.
    NerdFont,
    /// Standard Unicode block and arrow characters.
    Unicode,
    /// Pure ASCII, for terminals that render nothing else.
    Ascii,
}

/// The play glyph of `s`.
pub open spec fn spec_play(s: IconSet) -> Seq<char> {
    match s {
        IconSet::NerdFont => seq!['\u{f04b}'],
        IconSet::Unicode => seq!['▶'],
        IconSet::Ascii => seq!['>'],
    }
}

/// The pause glyph of `s`.
pub open spec fn spec_pause(s: IconSet) -> Seq<char> {
    match s {
        IconSet::NerdFont => seq!['\u{f04c}'],
        IconSet::Unicode => seq!['⏸'],
        IconSet::Ascii => seq!['|', '|'],
    }
}

/// The seek-backward glyph of `s`.
pub open spec fn spec_rewind(s: IconSet) -> Seq<char> {
    match s {
        IconSet::NerdFont => seq!['\u{f04a}'],
        IconSet::Unicode => seq!['«'],
        IconSet::Ascii => seq!['<', '<'],
    }
}

/// The seek-forward glyph of `s`.
pub open spec fn spec_fast_forward(s: IconSet) -> Seq<char> {
    match s {
        IconSet::NerdFont => seq!['\u{f04e}'],
        IconSet::Unicode => seq!['»'],
        IconSet::Ascii => seq!['>', '>'],
    }
}

/// The decorative now-playing glyph of `s`.
pub open spec fn spec_music(s: IconSet) -> Seq<char> {
    match s {
        IconSet::NerdFont => seq!['\u{f001}'],
        IconSet::Unicode => seq!['♪'],
        IconSet::Ascii => seq!['#'],
    }
}

/// The filled progress-bar cell of `s` (always one character).
pub open spec fn spec_fill(s: IconSet) -> char {
    match s {
        IconSet::NerdFont => '█',
        IconSet::Unicode => '█',
        IconSet::Ascii => '#',
    }
}

/// The empty progress-bar cell of `s` (always one character).
pub open spec fn spec_empty(s: IconSet) -> char {
    match s {
        IconSet::NerdFont => '░',
        IconSet::Unicode => '░',
        IconSet::Ascii => '.',
    }
}

/// The volume glyph of `s` at `level_pct` percent: muted at zero, quiet
/// below the loud threshold, loud from there up.
pub open spec fn spec_volume_icon(s: IconSet, level_pct: u32) -> Seq<char> {
    match s {
        IconSet::NerdFont => {
            if level_pct == 0 {
                seq!['\u{f026}']
            } else if level_pct < VOLUME_LOUD_THRESHOLD_PCT {
                seq!['\u{f027}']
            } else {
                seq!['\u{f028}']
            }
        },
        IconSet::Unicode => {
            if level_pct == 0 {
                seq!['🔇']
            } else if level_pct < VOLUME_LOUD_THRESHOLD_PCT {
                seq!['🔉']
            } else {
                seq!['🔊']
            }
        },
        IconSet::Ascii => {
            if level_pct == 0 {
                seq!['[', 'M', ']']
            } else if level_pct < VOLUME_LOUD_THRESHOLD_PCT {
                seq!['[', 'v', ']']
            } else {
                seq!['[', 'V', ']']
            }
        },
    }
}

impl IconSet {
    /// Play icon: `▶` / `>`.
    pub fn play(&self) -> (r: &'static str)
        ensures
            r@ == spec_play(*self),
    {
        proof {
            reveal_strlit("\u{f04b}");
            reveal_strlit("▶");
            reveal_strlit(">");
        }
        let r: &'static str = match self {
            IconSet::NerdFont => "\u{f04b}",
            IconSet::Unicode => "▶",
            IconSet::Ascii => ">",
        };
        proof {
            assert(r@ =~= spec_play(*self));
        }
        r
    }

    /// Pause icon: `⏸` / `||`.
    pub fn pause(&self) -> (r: &'static str)
        ensures
            r@ == spec_pause(*self),
    {
        proof {
            reveal_strlit("\u{f04c}");
            reveal_strlit("⏸");
            reveal_strlit("||");
        }
        let r: &'static str = match self {
            IconSet::NerdFont => "\u{f04c}",
            IconSet::Unicode => "⏸",
            IconSet::Ascii => "||",
        };
        proof {
            assert(r@ =~= spec_pause(*self));
        }
        r
    }

    /// Rewind / seek-back icon: `«` / `<<`.
    pub fn rewind(&self) -> (r: &'static str)
        ensures
            r@ == spec_rewind(*self),
    {
        proof {
            reveal_strlit("\u{f04a}");
            reveal_strlit("«");
            reveal_strlit("<<");
        }
        let r: &'static str = match self {
            IconSet::NerdFont => "\u{f04a}",
            IconSet::Unicode => "«",
            IconSet::Ascii => "<<",
        };
        proof {
            assert(r@ =~= spec_rewind(*self));
        }
        r
    }

    /// Fast-forward / seek-forward icon: `»` / `>>`.
    pub fn fast_forward(&self) -> (r: &'static str)
        ensures
            r@ == spec_fast_forward(*self),
    {
        proof {
            reveal_strlit("\u{f04e}");
            reveal_strlit("»");
            reveal_strlit(">>");
        }
        let r: &'static str = match self {
            IconSet::NerdFont => "\u{f04e}",
            IconSet::Unicode => "»",
            IconSet::Ascii => ">>",
        };
        proof {
            assert(r@ =~= spec_fast_forward(*self));
        }
        r
    }

    /// Music note / track decoration icon.
    pub fn music(&self) -> (r: &'static str)
        ensures
            r@ == spec_music(*self),
    {
        proof {
            reveal_strlit("\u{f001}");
            reveal_strlit("♪");
            reveal_strlit("#");
        }
        let r: &'static str = match self {
            IconSet::NerdFont => "\u{f001}",
            IconSet::Unicode => "♪",
            IconSet::Ascii => "#",
        };
        proof {
            assert(r@ =~= spec_music(*self));
        }
        r
    }

    /// Filled bar segment.
    pub fn fill(&self) -> (r: &'static str)
        ensures
            r@ == seq![spec_fill(*self)],
    {
        proof {
            reveal_strlit("█");
            reveal_strlit("#");
        }
        let r: &'static str = match self {
            IconSet::NerdFont => "█",
            IconSet::Unicode => "█",
            IconSet::Ascii => "#",
        };
        proof {
            assert(r@ =~= seq![spec_fill(*self)]);
        }
        r
    }

    /// Empty bar segment.
    pub fn empty(&self) -> (r: &'static str)
        ensures
            r@ == seq![spec_empty(*self)],
    {
        proof {
            reveal_strlit("░");
            reveal_strlit(".");
        }
        let r: &'static str = match self {
            IconSet::NerdFont => "░",
            IconSet::Unicode => "░",
            IconSet::Ascii => ".",
        };
        proof {
            assert(r@ =~= seq![spec_empty(*self)]);
        }
        r
    }

    /// Volume icon, in three tiers by level.
    pub fn volume(&self, level_pct: u32) -> (r: &'static str)
        ensures
            r@ == spec_volume_icon(*self, level_pct),
    {
        proof {
            reveal_strlit("\u{f026}");
            reveal_strlit("\u{f027}");
            reveal_strlit("\u{f028}");
            reveal_strlit("🔇");
            reveal_strlit("🔉");
            reveal_strlit("🔊");
            reveal_strlit("[M]");
            reveal_strlit("[v]");
            reveal_strlit("[V]");
        }
        let r: &'static str = match self {
            IconSet::NerdFont => {
                if level_pct == 0 {
                    "\u{f026}"
                } else if level_pct < VOLUME_LOUD_THRESHOLD_PCT {
                    "\u{f027}"
                } else {
                    "\u{f028}"
                }
            },
            IconSet::Unicode => {
                if level_pct == 0 {
                    "🔇"
                } else if level_pct < VOLUME_LOUD_THRESHOLD_PCT {
                    "🔉"
                } else {
                    "🔊"
                }
            },
            IconSet::Ascii => {
                if level_pct == 0 {
                    "[M]"
                } else if level_pct < VOLUME_LOUD_THRESHOLD_PCT {
                    "[v]"
                } else {
                    "[V]"
                }
            },
        };
        proof {
            assert(r@ =~= spec_volume_icon(*self, level_pct));
        }
        r
    }
}

/// The icon set implied by the caller's wishes and the terminal: the
/// explicit flag or the environment signal force the rich set; otherwise
/// a UTF-8-capable terminal gets Unicode, and anything else ASCII.
pub fn resolve_icon_set(flag: bool, env_signal: bool, unicode_capable: bool) -> (r: IconSet)
    ensures
        r == if flag || env_signal {
            IconSet::NerdFont
        } else if unicode_capable {
            IconSet::Unicode
        } else {
            IconSet::Ascii
        },
{
    if flag || env_signal {
        IconSet::NerdFont
    } else if unicode_capable {
        IconSet::Unicode
    } else {
        IconSet::Ascii
    }
}

/// Whether an environment variable's value switches the rich icon set
/// on: exactly `1`, or `true` in any letter case.
pub open spec fn spec_env_truthy(s: Seq<char>) -> bool {
    s == seq!['1'] || (s.len() == 4 && (s[0] == 't' || s[0] == 'T') && (s[1] == 'r' || s[1]
        == 'R') && (s[2] == 'u' || s[2] == 'U') && (s[3] == 'e' || s[3] == 'E'))
}

/// Reads an environment toggle: `1` or a case-insensitive `true` switch
/// it on, anything else leaves it off.
pub fn env_truthy(s: &str) -> (r: bool)
    ensures
        r == spec_env_truthy(s@),
{
    let n = s.unicode_len();
    if n == 1 {
        let c = s.get_char(0);
        proof {
            assert(c == '1' ==> s@ =~= seq!['1']);
        }
        c == '1'
    } else if n == 4 {
        let c0 = s.get_char(0);
        let c1 = s.get_char(1);
        let c2 = s.get_char(2);
        let c3 = s.get_char(3);
        (c0 == 't' || c0 == 'T') && (c1 == 'r' || c1 == 'R') && (c2 == 'u' || c2 == 'U') && (c3
            == 'e' || c3 == 'E')
    } else {
        false
    }
}

/// Whether the five characters of `s` starting at `i` spell `UTF-8`,
/// letters in either case.
pub open spec fn spec_utf8_dash_marker_at(s: Seq<char>, i: int) -> bool {
    &&& 0 <= i
    &&& i + 5 <= s.len()
    &&& (s[i] == 'U' || s[i] == 'u')
    &&& (s[i + 1] == 'T' || s[i + 1] == 't')
    &&& (s[i + 2] == 'F' || s[i + 2] == 'f')
    &&& s[i + 3] == '-'
    &&& s[i + 4] == '8'
}

/// Whether the four characters of `s` starting at `i` spell `UTF8`,
/// letters in either case.
pub open spec fn spec_utf8_marker_at(s: Seq<char>, i: int) -> bool {
    &&& 0 <= i
    &&& i + 4 <= s.len()
    &&& (s[i] == 'U' || s[i] == 'u')
    &&& (s[i + 1] == 'T' || s[i + 1] == 't')
    &&& (s[i + 2] == 'F' || s[i + 2] == 'f')
    &&& s[i + 3] == '8'
}

/// Whether a locale string advertises UTF-8: it contains `UTF-8` or
/// `UTF8`, letters in either case.
pub open spec fn spec_lang_advertises_utf8(s: Seq<char>) -> bool {
    (exists|i: int| spec_utf8_dash_marker_at(s, i)) || (exists|i: int| spec_utf8_marker_at(s, i))
}

/// Probes a locale environment value (`LANG` or `LC_ALL`) for a UTF-8
/// charset marker, letters in either case.
pub fn lang_advertises_utf8(s: &str) -> (r: bool)
    ensures
        r == spec_lang_advertises_utf8(s@),
{
    let n = s.unicode_len();
    let mut i: usize = 0;
    let mut found = false;
    while i < n
        invariant
            i <= n,
            n == s@.len(),
            found == ((exists|j: int| j < i && spec_utf8_dash_marker_at(s@, j)) || (exists|j: int|
                j < i && spec_utf8_marker_at(s@, j))),
        decreases n - i,
    {
        if !found {
            let c0 = s.get_char(i);
            if c0 == 'U' || c0 == 'u' {
                if n - i >= 4 {
                    let c1 = s.get_char(i + 1);
                    let c2 = s.get_char(i + 2);
                    let c3 = s.get_char(i + 3);
                    if (c1 == 'T' || c1 == 't') && (c2 == 'F' || c2 == 'f') {
                        if c3 == '8' {
                            proof {
                                assert(spec_utf8_marker_at(s@, i as int));
                            }
                            found = true;
                        } else if c3 == '-' && n - i >= 5 {
                            let c4 = s.get_char(i + 4);
                            if c4 == '8' {
                                proof {
                                    assert(spec_utf8_dash_marker_at(s@, i as int));
                                }
                                found = true;
                            }
                        }
                    }
                }
            }
        }
        i = i + 1;
    }
    proof {
        if !found && spec_lang_advertises_utf8(s@) {
            if exists|j: int| spec_utf8_dash_marker_at(s@, j) {
                let j = choose|j: int| spec_utf8_dash_marker_at(s@, j);
                assert(j < n && spec_utf8_dash_marker_at(s@, j));
            } else {
                let j = choose|j: int| spec_utf8_marker_at(s@, j);
                assert(j < n && spec_utf8_marker_at(s@, j));
            }
        }
    }
    found
}

} // verus!
