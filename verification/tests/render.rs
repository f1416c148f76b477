use audio_hook::icons::IconSet;
use audio_hook::render::compose_frame;
use audio_hook::render::compose_header;
use audio_hook::render::compute_layout;
use audio_hook::render::render_bar;
use audio_hook::render::truncate_count;

const SEC: u64 = 1_000_000_000;

#[test]
fn bar_ascii_half() {
    assert_eq!(render_bar(1, 2, 10, IconSet::Ascii), "[#####.....]");
}

#[test]
fn bar_unicode_half() {
    assert_eq!(render_bar(1, 2, 10, IconSet::Unicode), "[█████░░░░░]");
}

#[test]
fn bar_rounds_to_nearest() {
    // 2.5 cells round up to 3 for the non-rich sets.
    assert_eq!(render_bar(1, 4, 10, IconSet::Ascii), "[###.......]");
}

#[test]
fn bar_rich_fractional_cell() {
    // 10/3 = 3.33 cells: three full cells and a 2/8 partial block.
    assert_eq!(render_bar(1, 3, 10, IconSet::NerdFont), "[███▎░░░░░░]");
}

#[test]
fn bar_empty_and_full() {
    assert_eq!(render_bar(0, 10, 10, IconSet::Ascii), "[..........]");
    assert_eq!(render_bar(10, 10, 10, IconSet::Ascii), "[##########]");
    // A ratio past one is clamped to a full bar.
    assert_eq!(render_bar(15, 10, 10, IconSet::Ascii), "[##########]");
    // A zero denominator counts as ratio zero.
    assert_eq!(render_bar(3, 0, 10, IconSet::Ascii), "[..........]");
}

#[test]
fn bar_fill_never_exceeds_width() {
    for &width in &[10u64, 11, 37, 60] {
        for &(num, den) in &[(0u64, 7u64), (1, 7), (3, 7), (6, 7), (7, 7), (9, 7), (1, 3)] {
            for &icons in &[IconSet::Ascii, IconSet::Unicode, IconSet::NerdFont] {
                let bar = render_bar(num, den, width, icons);
                let cells: Vec<char> = bar.chars().collect();
                assert_eq!(cells.len() as u64, width + 2);
                assert_eq!(cells[0], '[');
                assert_eq!(cells[cells.len() - 1], ']');
                let empty = match icons {
                    IconSet::Ascii => '.',
                    _ => '░',
                };
                let filled = cells[1..cells.len() - 1]
                    .iter()
                    .filter(|&&c| c != empty)
                    .count() as u64;
                assert!(filled <= width);
            }
        }
    }
}

#[test]
fn layout_shares_space() {
    // Plenty of room: the main bar hits its 60-cell cap, volume a third.
    assert_eq!(compute_layout(80), (60, 20));
    assert_eq!(compute_layout(100), (60, 20));
    // Tight: fifteen free columns still fit both bars exactly.
    assert_eq!(compute_layout(20), (15, 5));
    assert_eq!(compute_layout(15), (10, 5));
    // Below fifteen the pair may spill, but the volume bar keeps its floor.
    assert_eq!(compute_layout(14), (9, 5));
}

#[test]
fn truncation_counts_display_columns() {
    // Wide characters cost two columns: only one fits a three-column budget.
    assert_eq!(truncate_count("你你你", 3), 1);
    assert_eq!(truncate_count("你你你", 4), 2);
    assert_eq!(truncate_count("abc", 2), 2);
    assert_eq!(truncate_count("abc", 10), 3);
    assert_eq!(truncate_count("abc", 0), 0);
}

#[test]
fn header_joins_artist_and_title() {
    assert_eq!(
        compose_header(IconSet::Ascii, Some("Art"), Some("Song")),
        Some("#  Art — Song".to_string())
    );
    assert_eq!(
        compose_header(IconSet::Unicode, Some("Art"), Some("Song")),
        Some("♪  Art — Song".to_string())
    );
    assert_eq!(compose_header(IconSet::Ascii, Some("Art"), None), Some("#  Art".to_string()));
    assert_eq!(compose_header(IconSet::Ascii, None, Some("Song")), Some("#  Song".to_string()));
    assert_eq!(compose_header(IconSet::Ascii, None, None), None);
}

#[test]
fn narrow_terminal_suppresses_frame() {
    let r = compose_frame(0, 90 * SEC, false, 100, true, IconSet::Ascii, None, Some(39));
    assert!(r.is_none());
    let r = compose_frame(0, 90 * SEC, false, 100, true, IconSet::Ascii, None, Some(40));
    assert!(r.is_some());
}

#[test]
fn frame_default_width_exact_line() {
    // Unknown terminal size: fixed 30/10 cell bars. 42s of 245s is 17%,
    // 5.14 cells of 30 rounds to 5.
    let f = compose_frame(42 * SEC, 245 * SEC, false, 100, false, IconSet::Ascii, None, None)
        .unwrap();
    assert_eq!(f.lead, ">");
    assert_eq!(
        f.rest,
        "  0:42 / 4:05  [#####.........................]  17%  [V] [#####.....] 100%"
    );
    assert!(f.header_line.is_none());
}

#[test]
fn frame_interactive_appends_key_legend() {
    let f = compose_frame(42 * SEC, 245 * SEC, false, 100, true, IconSet::Ascii, None, None)
        .unwrap();
    assert!(f.rest.ends_with("  << [SPACE/pause] >>  [↑↓/kj] vol  [m] mute  [q] quit"));
    let f = compose_frame(42 * SEC, 245 * SEC, true, 100, true, IconSet::Ascii, None, None)
        .unwrap();
    assert!(f.rest.contains("[SPACE/play ]"));
    assert_eq!(f.lead, "||");
}

#[test]
fn frame_truncates_wide_header() {
    let header = "你".repeat(30);
    let f = compose_frame(
        0,
        90 * SEC,
        false,
        100,
        false,
        IconSet::Unicode,
        Some(header.as_str()),
        Some(40),
    )
    .unwrap();
    let line = f.header_line.unwrap();
    // 40-column terminal, one column for the ellipsis: nineteen
    // two-column characters fit the 39 remaining columns.
    let expected = format!("{}…", "你".repeat(19));
    assert_eq!(line, expected);
}

#[test]
fn frame_truncates_ascii_header_with_dots() {
    let header = "a".repeat(50);
    let f = compose_frame(
        0,
        90 * SEC,
        false,
        100,
        false,
        IconSet::Ascii,
        Some(header.as_str()),
        Some(40),
    )
    .unwrap();
    let line = f.header_line.unwrap();
    let expected = format!("{}...", "a".repeat(37));
    assert_eq!(line, expected);
}

#[test]
fn frame_keeps_fitting_header() {
    let f = compose_frame(
        0,
        90 * SEC,
        false,
        100,
        false,
        IconSet::Ascii,
        Some("#  Art — Song"),
        Some(80),
    )
    .unwrap();
    assert_eq!(f.header_line.unwrap(), "#  Art — Song");
}

#[test]
fn frame_rich_glyphs_exact_line() {
    // Rich set: 5.14 cells floor to five full cells plus a 1/8 partial
    // block; the volume bar lands on a whole cell and shows no partial.
    let f = compose_frame(42 * SEC, 245 * SEC, false, 100, false, IconSet::NerdFont, None, None)
        .unwrap();
    let expected = format!(
        "  0:42 / 4:05  [█████▏{}]  17%  \u{f028} [█████░░░░░] 100%",
        "░".repeat(24)
    );
    assert_eq!(f.rest, expected);
}

#[test]
fn frame_nerd_font_lead_has_music_prefix() {
    let f = compose_frame(0, 90 * SEC, false, 100, false, IconSet::NerdFont, None, None).unwrap();
    assert_eq!(f.lead, "\u{f001} \u{f04b}");
}
