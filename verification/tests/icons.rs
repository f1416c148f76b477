use audio_hook::icons::env_truthy;
use audio_hook::icons::lang_advertises_utf8;
use audio_hook::icons::resolve_icon_set;
use audio_hook::icons::IconSet;

#[test]
fn resolution_priority_flag_env_probe() {
    assert_eq!(resolve_icon_set(true, false, false), IconSet::NerdFont);
    assert_eq!(resolve_icon_set(false, true, false), IconSet::NerdFont);
    assert_eq!(resolve_icon_set(true, true, true), IconSet::NerdFont);
    assert_eq!(resolve_icon_set(false, false, true), IconSet::Unicode);
    assert_eq!(resolve_icon_set(false, false, false), IconSet::Ascii);
}

#[test]
fn env_toggle_accepts_one_and_true() {
    assert!(env_truthy("1"));
    assert!(env_truthy("true"));
    assert!(env_truthy("TRUE"));
    assert!(env_truthy("tRuE"));
    assert!(!env_truthy("0"));
    assert!(!env_truthy(""));
    assert!(!env_truthy("yes"));
    assert!(!env_truthy("truth"));
}

#[test]
fn locale_probe_finds_utf8_markers() {
    assert!(lang_advertises_utf8("en_US.UTF-8"));
    assert!(lang_advertises_utf8("en_GB.utf8"));
    assert!(lang_advertises_utf8("de_DE.Utf-8"));
    assert!(!lang_advertises_utf8("C"));
    assert!(!lang_advertises_utf8("POSIX"));
    assert!(!lang_advertises_utf8("en_US.UTF"));
    assert!(!lang_advertises_utf8(""));
}

#[test]
fn ascii_glyphs() {
    let s = IconSet::Ascii;
    assert_eq!(s.play(), ">");
    assert_eq!(s.pause(), "||");
    assert_eq!(s.rewind(), "<<");
    assert_eq!(s.fast_forward(), ">>");
    assert_eq!(s.music(), "#");
    assert_eq!(s.fill(), "#");
    assert_eq!(s.empty(), ".");
}

#[test]
fn unicode_glyphs() {
    let s = IconSet::Unicode;
    assert_eq!(s.play(), "▶");
    assert_eq!(s.pause(), "⏸");
    assert_eq!(s.rewind(), "«");
    assert_eq!(s.fast_forward(), "»");
    assert_eq!(s.music(), "♪");
    assert_eq!(s.fill(), "█");
    assert_eq!(s.empty(), "░");
}

#[test]
fn nerd_font_glyphs() {
    let s = IconSet::NerdFont;
    assert_eq!(s.play(), "\u{f04b}");
    assert_eq!(s.pause(), "\u{f04c}");
    assert_eq!(s.rewind(), "\u{f04a}");
    assert_eq!(s.fast_forward(), "\u{f04e}");
    assert_eq!(s.music(), "\u{f001}");
    assert_eq!(s.fill(), "█");
    assert_eq!(s.empty(), "░");
}

#[test]
fn volume_icon_tiers() {
    // Exactly zero is muted; below 50% is quiet; 50% and up is loud.
    assert_eq!(IconSet::Ascii.volume(0), "[M]");
    assert_eq!(IconSet::Ascii.volume(1), "[v]");
    assert_eq!(IconSet::Ascii.volume(49), "[v]");
    assert_eq!(IconSet::Ascii.volume(50), "[V]");
    assert_eq!(IconSet::Ascii.volume(200), "[V]");
    assert_eq!(IconSet::Unicode.volume(0), "🔇");
    assert_eq!(IconSet::Unicode.volume(49), "🔉");
    assert_eq!(IconSet::Unicode.volume(50), "🔊");
    assert_eq!(IconSet::NerdFont.volume(0), "\u{f026}");
    assert_eq!(IconSet::NerdFont.volume(49), "\u{f027}");
    assert_eq!(IconSet::NerdFont.volume(50), "\u{f028}");
}
