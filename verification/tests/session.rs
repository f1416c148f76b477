use audio_hook::session::Key;
use audio_hook::session::Phase;
use audio_hook::session::PlaybackSession;
use audio_hook::session::SinkCommand;

const SEC: u64 = 1_000_000_000;

fn running_session(total_secs: u64, volume_pct: u32) -> PlaybackSession {
    PlaybackSession::new(total_secs * SEC, volume_pct, None)
}

#[test]
fn new_session_clamps_volume() {
    let s = PlaybackSession::new(90 * SEC, 250, None);
    assert_eq!(s.volume_pct, 200);
    assert_eq!(s.pre_mute_volume_pct, 200);
    assert_eq!(s.elapsed_ns, 0);
    assert!(!s.paused);
    assert_eq!(s.phase, Phase::Running);
}

#[test]
fn elapsed_never_overshoots_total() {
    // The position probe briefly reports a value beyond the total; the
    // clock is clamped and the loop ends.
    let mut s = running_session(90, 100);
    let out = s.tick(95 * SEC, false, None);
    assert_eq!(s.elapsed_ns, 90 * SEC);
    assert!(out.finished);
    assert_eq!(s.phase, Phase::Draining);
}

#[test]
fn elapsed_stays_within_bounds_over_many_ticks() {
    let mut s = running_session(90, 100);
    let probes = [0, 40 * SEC, 89 * SEC, 50 * SEC, 89 * SEC];
    for &p in probes.iter() {
        let out = s.tick(p, false, None);
        assert!(s.elapsed_ns <= s.total_ns);
        assert!(!out.finished);
    }
}

#[test]
fn sink_empty_ends_loop() {
    let mut s = running_session(90, 100);
    let out = s.tick(10 * SEC, true, None);
    assert!(out.finished);
    assert_eq!(out.command, None);
    assert_eq!(s.phase, Phase::Draining);
}

#[test]
fn volume_up_converges_to_max() {
    // From 100% (normal volume), twenty presses reach exactly 200% and
    // further presses stop increasing it.
    let mut s = running_session(90, 100);
    for i in 1..=20u32 {
        let out = s.tick(SEC, false, Some(Key::VolumeUp));
        assert_eq!(s.volume_pct, 100 + 5 * i);
        assert_eq!(out.command, Some(SinkCommand::SetVolumePct(100 + 5 * i)));
        assert!(out.needs_render);
    }
    assert_eq!(s.volume_pct, 200);
    let out = s.tick(SEC, false, Some(Key::VolumeUp));
    assert_eq!(s.volume_pct, 200);
    assert_eq!(out.command, Some(SinkCommand::SetVolumePct(200)));
}

#[test]
fn volume_down_floors_at_zero() {
    let mut s = running_session(90, 3);
    let out = s.tick(SEC, false, Some(Key::VolumeDown));
    assert_eq!(s.volume_pct, 0);
    assert_eq!(out.command, Some(SinkCommand::SetVolumePct(0)));
    // The pre-mute memory keeps the last nonzero volume.
    assert_eq!(s.pre_mute_volume_pct, 3);
    let out = s.tick(SEC, false, Some(Key::VolumeDown));
    assert_eq!(s.volume_pct, 0);
    assert_eq!(out.command, Some(SinkCommand::SetVolumePct(0)));
}

#[test]
fn mute_then_unmute_restores_volume() {
    let mut s = running_session(90, 100);
    s.tick(SEC, false, Some(Key::VolumeDown));
    assert_eq!(s.volume_pct, 95);
    let out = s.tick(SEC, false, Some(Key::ToggleMute));
    assert_eq!(s.volume_pct, 0);
    assert_eq!(s.pre_mute_volume_pct, 95);
    assert_eq!(out.command, Some(SinkCommand::SetVolumePct(0)));
    let out = s.tick(SEC, false, Some(Key::ToggleMute));
    assert_eq!(s.volume_pct, 95);
    assert_eq!(out.command, Some(SinkCommand::SetVolumePct(95)));
}

#[test]
fn unmute_restores_at_least_one_step() {
    // A pre-mute volume below one step comes back as one step.
    let mut s = running_session(90, 3);
    let out = s.tick(SEC, false, Some(Key::ToggleMute));
    assert_eq!(s.volume_pct, 0);
    assert_eq!(out.command, Some(SinkCommand::SetVolumePct(0)));
    let out = s.tick(SEC, false, Some(Key::ToggleMute));
    assert_eq!(s.volume_pct, 5);
    assert_eq!(out.command, Some(SinkCommand::SetVolumePct(5)));
}

#[test]
fn pause_toggles_and_commands_sink() {
    let mut s = running_session(90, 100);
    let out = s.tick(SEC, false, Some(Key::TogglePause));
    assert!(s.paused);
    assert_eq!(out.command, Some(SinkCommand::Pause));
    let out = s.tick(SEC, false, Some(Key::TogglePause));
    assert!(!s.paused);
    assert_eq!(out.command, Some(SinkCommand::Play));
}

#[test]
fn seek_forward_caps_at_total() {
    let mut s = running_session(90, 100);
    let out = s.tick(88 * SEC, false, Some(Key::SeekForward));
    assert_eq!(out.command, Some(SinkCommand::SeekTo(90 * SEC)));
    let mut s = running_session(90, 100);
    let out = s.tick(40 * SEC, false, Some(Key::SeekForward));
    assert_eq!(out.command, Some(SinkCommand::SeekTo(45 * SEC)));
}

#[test]
fn seek_back_floors_at_zero() {
    let mut s = running_session(90, 100);
    let out = s.tick(2 * SEC, false, Some(Key::SeekBack));
    assert_eq!(out.command, Some(SinkCommand::SeekTo(0)));
    let mut s = running_session(90, 100);
    let out = s.tick(40 * SEC, false, Some(Key::SeekBack));
    assert_eq!(out.command, Some(SinkCommand::SeekTo(35 * SEC)));
}

#[test]
fn confirm_seek_moves_clock_only_on_success() {
    let mut s = running_session(90, 100);
    s.tick(40 * SEC, false, None);
    s.confirm_seek(45 * SEC, false);
    assert_eq!(s.elapsed_ns, 40 * SEC);
    s.confirm_seek(45 * SEC, true);
    assert_eq!(s.elapsed_ns, 45 * SEC);
    // A confirmed seek past the total is clamped.
    s.confirm_seek(95 * SEC, true);
    assert_eq!(s.elapsed_ns, 90 * SEC);
}

#[test]
fn interactivity_decided_once_and_kept() {
    // 30s track: below the 60s threshold, not interactive; seeking and
    // ticking never flip the decision.
    let mut s = running_session(30, 100);
    assert!(!s.interactive);
    s.tick(5 * SEC, false, Some(Key::SeekForward));
    assert!(!s.interactive);
    s.confirm_seek(10 * SEC, true);
    assert!(!s.interactive);
    let mut long = running_session(90, 100);
    assert!(long.interactive);
    long.tick(5 * SEC, false, Some(Key::SeekBack));
    long.confirm_seek(0, true);
    assert!(long.interactive);
}

#[test]
fn short_track_renders_only_on_interval() {
    // Non-interactive session: no keys are fed; ticks never ask for an
    // immediate redraw, so only the periodic interval renders, until the
    // clock reaches the total.
    let mut s = running_session(30, 100);
    let mut pos = 0u64;
    while pos < 30 * SEC {
        let out = s.tick(pos, false, None);
        assert!(!out.needs_render);
        if out.finished {
            break;
        }
        pos += 5 * SEC;
    }
    let out = s.tick(30 * SEC, false, None);
    assert!(out.finished);
    assert_eq!(s.elapsed_ns, 30 * SEC);
}

#[test]
fn quit_stops_sink_and_drains() {
    // 'q' at 12s of a 90s track: the sink is stopped, the session drains
    // at once, and the clock still shows 12s for the final render.
    let mut s = running_session(90, 100);
    let out = s.tick(12 * SEC, false, Some(Key::Quit));
    assert_eq!(out.command, Some(SinkCommand::Stop));
    assert!(out.finished);
    assert!(!out.needs_render);
    assert_eq!(s.phase, Phase::Draining);
    assert_eq!(s.elapsed_ns, 12 * SEC);
    assert!(s.elapsed_ns < s.total_ns);
    s.finish();
    assert_eq!(s.phase, Phase::Stopped);
}

#[test]
fn header_is_kept_for_the_whole_session() {
    let mut s = PlaybackSession::new(90 * SEC, 100, Some("♪  Art — Song".to_string()));
    s.tick(5 * SEC, false, Some(Key::SeekForward));
    s.confirm_seek(10 * SEC, true);
    s.tick(10 * SEC, false, Some(Key::ToggleMute));
    assert_eq!(s.header.as_deref(), Some("♪  Art — Song"));
}

#[test]
fn ignored_keys_change_nothing() {
    let mut s = running_session(90, 100);
    let out = s.tick(SEC, false, Some(Key::Other));
    assert_eq!(out.command, None);
    assert!(!out.needs_render);
    assert!(!out.finished);
    assert_eq!(s.volume_pct, 100);
    assert!(!s.paused);
}
