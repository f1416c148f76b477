use audio_hook::duration::duration_ns_from_signed;
use audio_hook::duration::render_due;
use audio_hook::duration::resolve_total_duration;
use audio_hook::duration::silent_should_continue;
use audio_hook::duration::CONTROLS_THRESHOLD_NS;
use audio_hook::duration::FALLBACK_TOTAL_NS;
use audio_hook::session::PlaybackSession;

const SEC: u64 = 1_000_000_000;

#[test]
fn resolve_override_wins() {
    assert_eq!(
        resolve_total_duration(Some(5 * SEC), Some(7 * SEC), Some(9 * SEC)),
        5 * SEC
    );
    // An explicit zero override is honoured as given.
    assert_eq!(resolve_total_duration(Some(0), Some(7 * SEC), Some(9 * SEC)), 0);
}

#[test]
fn resolve_decoder_beats_header() {
    assert_eq!(resolve_total_duration(None, Some(7 * SEC), Some(9 * SEC)), 7 * SEC);
}

#[test]
fn resolve_header_when_decoder_silent() {
    assert_eq!(resolve_total_duration(None, None, Some(9 * SEC)), 9 * SEC);
}

#[test]
fn resolve_zero_header_is_absent() {
    // A zero-valued header duration falls through to the one-hour fallback.
    assert_eq!(resolve_total_duration(None, None, Some(0)), 3600 * SEC);
    assert_eq!(resolve_total_duration(None, None, Some(0)), FALLBACK_TOTAL_NS);
}

#[test]
fn resolve_all_absent_gives_one_hour() {
    assert_eq!(resolve_total_duration(None, None, None), 3600 * SEC);
}

#[test]
fn scenario_header_ninety_seconds_interactive() {
    // No override, decoder reports nothing, header says 90s: the session
    // runs for 90s and is interactive (>= 60s threshold).
    let total = resolve_total_duration(None, None, Some(90 * SEC));
    assert_eq!(total, 90 * SEC);
    let session = PlaybackSession::new(total, 100, None);
    assert!(session.interactive);
    assert!(total >= CONTROLS_THRESHOLD_NS);
}

#[test]
fn duration_flag_rejects_negative() {
    assert_eq!(duration_ns_from_signed(-1), None);
    assert_eq!(duration_ns_from_signed(0), Some(0));
    assert_eq!(duration_ns_from_signed(1_500_000_000), Some(1_500_000_000));
}

#[test]
fn silent_wait_stops_at_total_or_empty() {
    assert!(silent_should_continue(0, 10 * SEC, false));
    assert!(!silent_should_continue(10 * SEC, 10 * SEC, false));
    assert!(!silent_should_continue(11 * SEC, 10 * SEC, false));
    assert!(!silent_should_continue(0, 10 * SEC, true));
}

#[test]
fn render_interval_rule() {
    assert!(render_due(true, 0));
    assert!(!render_due(false, 499));
    assert!(render_due(false, 500));
    assert!(render_due(false, 501));
}
