//! The playback-session state machine.
//!
//! One session owns the model of a single playback run: the resolved
//! target duration, the clock position, the pause flag, the volume, and
//! the phase of the run. The host's loop reads the sink position and the
//! keyboard once per tick and hands both to [`PlaybackSession::tick`],
//! which applies the transition table and answers with the command the
//! sink must receive and whether the display must redraw. The host
//! performs the command; no I/O happens here.
use vstd::prelude::*;

use crate::duration::CONTROLS_THRESHOLD_NS;
use crate::duration::SEEK_STEP_NS;

verus! {

/// Upper bound of the volume range, in percent (200% = double gain).
pub const VOLUME_MAX_PCT: u32 = 200;

/// How much one volume key press changes the volume, in percent.
pub const VOLUME_STEP_PCT: u32 = 5;

/// A keyboard command, already decoded from the raw key event.
#[derive(Clone, Copy, PartialEq, Eq, Structural, Debug)]
pub enum Key {
    /// Space: toggle pause.
    TogglePause,
    /// Right arrow or `l`: seek forward one step.
    SeekForward,
    /// Left arrow or `h`: seek back one step.
    SeekBack,
    /// Up arrow or `k`: volume up one step.
    VolumeUp,
    /// Down arrow or `j`: volume down one step.
    VolumeDown,
    /// `m`: mute, or restore the pre-mute volume.
    ToggleMute,
    /// `q` or Escape: stop playback.
    Quit,
    /// Any other key: ignored.
    Other,
}

/// What the host must apply to the audio sink after a tick.
#[derive(Clone, Copy, PartialEq, Eq, Structural, Debug)]
pub enum SinkCommand {
    /// Resume playback.
    Play,
    /// Pause playback.
    Pause,
    /// Stop and discard the stream.
    Stop,
    /// Set the gain to this percentage of normal.
    SetVolumePct(u32),
    /// Try to move the playback position here (nanoseconds).
    SeekTo(u64),
}

/// Where a session stands in its life cycle.
#[derive(Clone, Copy, PartialEq, Eq, Structural, Debug)]
pub enum Phase {
    /// The loop is live: positions are read and keys are applied.
    Running,
    /// The loop has ended; one final render remains before teardown.
    Draining,
    /// Control has returned to the caller.
    Stopped,
}

/// What one tick tells the host to do.
#[derive(Clone, Copy, PartialEq, Eq, Structural, Debug)]
pub struct TickOutcome {
    /// The command the sink must receive, if any.
    pub command: Option<SinkCommand>,
    /// Whether a state-changing key asks for an immediate redraw.
    pub needs_render: bool,
    /// Whether the loop is over and the session is draining.
    pub finished: bool,
}

/// The model of one playback run.
pub struct PlaybackSession {
    /// Resolved target duration in nanoseconds; never changes.
    pub total_ns: u64,
    /// Current playback position in nanoseconds, clamped to the total.
    pub elapsed_ns: u64,
    /// Whether playback is paused.
    pub paused: bool,
    /// Current volume in percent, within `[0, VOLUME_MAX_PCT]`.
    pub volume_pct: u32,
    /// The last nonzero volume, restored when a mute is lifted.
    pub pre_mute_volume_pct: u32,
    /// Whether keyboard controls are live; decided once at start.
    pub interactive: bool,
    /// The precomputed header line (artist and title), shown above the
    /// progress line; immutable for the session's lifetime.
    pub header: Option<String>,
    /// Where the session stands.
    pub phase: Phase,
}

/// The volume one up-key press reaches from `v`: one step more, capped.
pub open spec fn spec_volume_up(v: u32) -> u32 {
    if v + VOLUME_STEP_PCT >= VOLUME_MAX_PCT {
        VOLUME_MAX_PCT
    } else {
        (v + VOLUME_STEP_PCT) as u32
    }
}

/// The volume one down-key press reaches from `v`: one step less,
/// floored at zero.
pub open spec fn spec_volume_down(v: u32) -> u32 {
    if v >= VOLUME_STEP_PCT {
        (v - VOLUME_STEP_PCT) as u32
    } else {
        0
    }
}

/// The volume an unmute restores from the remembered value `pre`:
/// at least one volume step.
pub open spec fn spec_unmute_volume(pre: u32) -> u32 {
    if pre >= VOLUME_STEP_PCT {
        pre
    } else {
        VOLUME_STEP_PCT
    }
}

/// `pos` clamped to `[0, total]`.
pub open spec fn spec_clamp_pos(total: u64, pos: u64) -> u64 {
    if pos <= total {
        pos
    } else {
        total
    }
}

/// The seek-forward target: one step ahead, capped at the total.
pub open spec fn spec_seek_forward_target(s: PlaybackSession) -> u64 {
    if s.elapsed_ns + SEEK_STEP_NS >= s.total_ns {
        s.total_ns
    } else {
        (s.elapsed_ns + SEEK_STEP_NS) as u64
    }
}

/// The seek-back target: one step behind, floored at zero.
pub open spec fn spec_seek_back_target(s: PlaybackSession) -> u64 {
    if s.elapsed_ns >= SEEK_STEP_NS {
        (s.elapsed_ns - SEEK_STEP_NS) as u64
    } else {
        0
    }
}

/// The state a key press moves `s` to (the transition table's state
/// column; seeks change no state here, the position is re-read from the
/// sink and confirmed separately).
pub open spec fn spec_key_state(s: PlaybackSession, key: Key) -> PlaybackSession {
    match key {
        Key::TogglePause => PlaybackSession { paused: !s.paused, ..s },
        Key::SeekForward => s,
        Key::SeekBack => s,
        Key::VolumeUp => PlaybackSession {
            volume_pct: spec_volume_up(s.volume_pct),
            pre_mute_volume_pct: spec_volume_up(s.volume_pct),
            ..s
        },
        Key::VolumeDown => PlaybackSession {
            volume_pct: spec_volume_down(s.volume_pct),
            pre_mute_volume_pct: if spec_volume_down(s.volume_pct) > 0 {
                spec_volume_down(s.volume_pct)
            } else {
                s.pre_mute_volume_pct
            },
            ..s
        },
        Key::ToggleMute => if s.volume_pct > 0 {
            PlaybackSession { volume_pct: 0, pre_mute_volume_pct: s.volume_pct, ..s }
        } else {
            PlaybackSession { volume_pct: spec_unmute_volume(s.pre_mute_volume_pct), ..s }
        },
        Key::Quit => PlaybackSession { phase: Phase::Draining, ..s },
        Key::Other => s,
    }
}

/// The sink command a key press emits from state `s` (the transition
/// table's effect column).
pub open spec fn spec_key_command(s: PlaybackSession, key: Key) -> Option<SinkCommand> {
    match key {
        Key::TogglePause => Some(
            if s.paused {
                SinkCommand::Play
            } else {
                SinkCommand::Pause
            },
        ),
        Key::SeekForward => Some(SinkCommand::SeekTo(spec_seek_forward_target(s))),
        Key::SeekBack => Some(SinkCommand::SeekTo(spec_seek_back_target(s))),
        Key::VolumeUp => Some(SinkCommand::SetVolumePct(spec_volume_up(s.volume_pct))),
        Key::VolumeDown => Some(SinkCommand::SetVolumePct(spec_volume_down(s.volume_pct))),
        Key::ToggleMute => Some(
            SinkCommand::SetVolumePct(
                if s.volume_pct > 0 {
                    0
                } else {
                    spec_unmute_volume(s.pre_mute_volume_pct)
                },
            ),
        ),
        Key::Quit => Some(SinkCommand::Stop),
        Key::Other => None,
    }
}

/// Whether a key press asks for an immediate redraw: every
/// state-changing key does, quitting and ignored keys do not.
pub open spec fn spec_key_renders(key: Key) -> bool {
    match key {
        Key::TogglePause => true,
        Key::SeekForward => true,
        Key::SeekBack => true,
        Key::VolumeUp => true,
        Key::VolumeDown => true,
        Key::ToggleMute => true,
        Key::Quit => false,
        Key::Other => false,
    }
}

/// Whether this tick ends the loop before any key is looked at: the
/// clock has reached the target, or the sink ran out of sound.
pub open spec fn spec_tick_ends(s: PlaybackSession, pos: u64, sink_empty: bool) -> bool {
    pos >= s.total_ns || sink_empty
}

/// The state one whole tick moves `s` to: the clock is re-read and
/// clamped first; then either the loop ends, or the key (if any) is
/// applied.
pub open spec fn spec_tick_state(
    s: PlaybackSession,
    pos: u64,
    sink_empty: bool,
    key: Option<Key>,
) -> PlaybackSession {
    let s1 = PlaybackSession { elapsed_ns: spec_clamp_pos(s.total_ns, pos), ..s };
    if spec_tick_ends(s, pos, sink_empty) {
        PlaybackSession { phase: Phase::Draining, ..s1 }
    } else {
        match key {
            None => s1,
            Some(k) => spec_key_state(s1, k),
        }
    }
}

/// The command one whole tick emits.
pub open spec fn spec_tick_command(
    s: PlaybackSession,
    pos: u64,
    sink_empty: bool,
    key: Option<Key>,
) -> Option<SinkCommand> {
    if spec_tick_ends(s, pos, sink_empty) {
        None
    } else {
        match key {
            None => None,
            Some(k) => spec_key_command(
                PlaybackSession { elapsed_ns: spec_clamp_pos(s.total_ns, pos), ..s },
                k,
            ),
        }
    }
}

/// Whether one whole tick asks for an immediate redraw.
pub open spec fn spec_tick_renders(
    s: PlaybackSession,
    pos: u64,
    sink_empty: bool,
    key: Option<Key>,
) -> bool {
    if spec_tick_ends(s, pos, sink_empty) {
        false
    } else {
        match key {
            None => false,
            Some(k) => spec_key_renders(k),
        }
    }
}

impl PlaybackSession {
    /// The session's invariant: the clock stays within the track, the
    /// volumes stay within range, and interactivity is exactly the
    /// once-made decision over the immutable total.
    pub open spec fn wf(self) -> bool {
        &&& self.elapsed_ns <= self.total_ns
        &&& self.volume_pct <= VOLUME_MAX_PCT
        &&& self.pre_mute_volume_pct <= VOLUME_MAX_PCT
        &&& self.interactive == (self.total_ns >= CONTROLS_THRESHOLD_NS)
    }

    /// Opens a session over a resolved total duration: the clock starts
    /// at zero, playback starts unpaused at the requested volume
    /// (capped at the maximum), and keyboard controls are switched on
    /// exactly when the track is at least the controls threshold long.
    /// The header, precomputed by the caller, never changes afterwards.
    pub fn new(total_ns: u64, requested_volume_pct: u32, header: Option<String>) -> (s:
        PlaybackSession)
        ensures
            s.wf(),
            s.total_ns == total_ns,
            s.elapsed_ns == 0,
            !s.paused,
            s.volume_pct == if requested_volume_pct <= VOLUME_MAX_PCT {
                requested_volume_pct
            } else {
                VOLUME_MAX_PCT
            },
            s.pre_mute_volume_pct == s.volume_pct,
            s.interactive == (total_ns >= CONTROLS_THRESHOLD_NS),
            s.header == header,
            s.phase is Running,
    {
        let volume = if requested_volume_pct <= VOLUME_MAX_PCT {
            requested_volume_pct
        } else {
            VOLUME_MAX_PCT
        };
        PlaybackSession {
            total_ns,
            elapsed_ns: 0,
            paused: false,
            volume_pct: volume,
            pre_mute_volume_pct: volume,
            interactive: total_ns >= CONTROLS_THRESHOLD_NS,
            header,
            phase: Phase::Running,
        }
    }

    /// One tick of the loop: re-reads the clock from the sink's
    /// reported position (clamped to the total), ends the loop when the
    /// track is over or the sink is empty, and otherwise applies the
    /// decoded key press, answering with the sink command to perform
    /// and whether to redraw at once.
    pub fn tick(&mut self, reported_pos_ns: u64, sink_empty: bool, key: Option<Key>) -> (out:
        TickOutcome)
        requires
            old(self).wf(),
            old(self).phase is Running,
        ensures
            *final(self) == spec_tick_state(*old(self), reported_pos_ns, sink_empty, key),
            out.command == spec_tick_command(*old(self), reported_pos_ns, sink_empty, key),
            out.needs_render == spec_tick_renders(*old(self), reported_pos_ns, sink_empty, key),
            out.finished == (final(self).phase is Draining),
            final(self).wf(),
            final(self).total_ns == old(self).total_ns,
            final(self).interactive == old(self).interactive,
            final(self).header == old(self).header,
            final(self).elapsed_ns == spec_clamp_pos(old(self).total_ns, reported_pos_ns),
    {
        self.elapsed_ns = if reported_pos_ns <= self.total_ns {
            reported_pos_ns
        } else {
            self.total_ns
        };
        if reported_pos_ns >= self.total_ns || sink_empty {
            self.phase = Phase::Draining;
            return TickOutcome { command: None, needs_render: false, finished: true };
        }
        match key {
            None => TickOutcome { command: None, needs_render: false, finished: false },
            Some(Key::TogglePause) => {
                let cmd = if self.paused {
                    SinkCommand::Play
                } else {
                    SinkCommand::Pause
                };
                self.paused = !self.paused;
                TickOutcome { command: Some(cmd), needs_render: true, finished: false }
            },
            Some(Key::SeekForward) => {
                let target = if self.total_ns - self.elapsed_ns <= SEEK_STEP_NS {
                    self.total_ns
                } else {
                    self.elapsed_ns + SEEK_STEP_NS
                };
                TickOutcome {
                    command: Some(SinkCommand::SeekTo(target)),
                    needs_render: true,
                    finished: false,
                }
            },
            Some(Key::SeekBack) => {
                let target = if self.elapsed_ns >= SEEK_STEP_NS {
                    self.elapsed_ns - SEEK_STEP_NS
                } else {
                    0
                };
                TickOutcome {
                    command: Some(SinkCommand::SeekTo(target)),
                    needs_render: true,
                    finished: false,
                }
            },
            Some(Key::VolumeUp) => {
                let v = if self.volume_pct >= VOLUME_MAX_PCT - VOLUME_STEP_PCT {
                    VOLUME_MAX_PCT
                } else {
                    self.volume_pct + VOLUME_STEP_PCT
                };
                self.volume_pct = v;
                self.pre_mute_volume_pct = v;
                TickOutcome {
                    command: Some(SinkCommand::SetVolumePct(v)),
                    needs_render: true,
                    finished: false,
                }
            },
            Some(Key::VolumeDown) => {
                let v = if self.volume_pct >= VOLUME_STEP_PCT {
                    self.volume_pct - VOLUME_STEP_PCT
                } else {
                    0
                };
                self.volume_pct = v;
                if v > 0 {
                    self.pre_mute_volume_pct = v;
                }
                TickOutcome {
                    command: Some(SinkCommand::SetVolumePct(v)),
                    needs_render: true,
                    finished: false,
                }
            },
            Some(Key::ToggleMute) => {
                let v = if self.volume_pct > 0 {
                    self.pre_mute_volume_pct = self.volume_pct;
                    0
                } else {
                    if self.pre_mute_volume_pct >= VOLUME_STEP_PCT {
                        self.pre_mute_volume_pct
                    } else {
                        VOLUME_STEP_PCT
                    }
                };
                self.volume_pct = v;
                TickOutcome {
                    command: Some(SinkCommand::SetVolumePct(v)),
                    needs_render: true,
                    finished: false,
                }
            },
            Some(Key::Quit) => {
                self.phase = Phase::Draining;
                TickOutcome {
                    command: Some(SinkCommand::Stop),
                    needs_render: false,
                    finished: true,
                }
            },
            Some(Key::Other) => TickOutcome { command: None, needs_render: false, finished: false },
        }
    }

    /// Confirms an attempted seek: on success the clock jumps to the
    /// target (clamped to the total); a failed seek changes nothing, the
    /// loop goes on from the unchanged position.
    pub fn confirm_seek(&mut self, target_ns: u64, success: bool)
        requires
            old(self).wf(),
        ensures
            final(self).elapsed_ns == if success {
                spec_clamp_pos(old(self).total_ns, target_ns)
            } else {
                old(self).elapsed_ns
            },
            *final(self) == (PlaybackSession { elapsed_ns: final(self).elapsed_ns, ..*old(self) }),
            final(self).wf(),
    {
        if success {
            self.elapsed_ns = if target_ns <= self.total_ns {
                target_ns
            } else {
                self.total_ns
            };
        }
    }

    /// Ends the drain: the session is over and control may return.
    pub fn finish(&mut self)
        requires
            old(self).wf(),
        ensures
            *final(self) == (PlaybackSession { phase: Phase::Stopped, ..*old(self) }),
            final(self).wf(),
    {
        self.phase = Phase::Stopped;
    }
}

/// The state reached by feeding `inputs` — one (reported position,
/// sink-empty, key) triple per tick — through the transition function.
pub open spec fn spec_run_ticks(s: PlaybackSession, inputs: Seq<(u64, bool, Option<Key>)>) -> PlaybackSession
    decreases inputs.len(),
{
    if inputs.len() == 0 {
        s
    } else {
        spec_run_ticks(
            spec_tick_state(s, inputs[0].0, inputs[0].1, inputs[0].2),
            inputs.drop_first(),
        )
    }
}

/// One tick keeps the session well formed: in particular the clock
/// stays within `[0, total]` and the volume within its range.
pub proof fn lemma_tick_state_wf(s: PlaybackSession, pos: u64, sink_empty: bool, key: Option<Key>)
    requires
        s.wf(),
    ensures
        spec_tick_state(s, pos, sink_empty, key).wf(),
{
}

/// After any sequence of ticks from a well-formed session, the clock
/// still lies within `[0, total]` — even when position reports overshot
/// the total — and the total and the interactivity decision stand
/// untouched.
pub proof fn lemma_run_ticks_wf(s: PlaybackSession, inputs: Seq<(u64, bool, Option<Key>)>)
    requires
        s.wf(),
    ensures
        spec_run_ticks(s, inputs).wf(),
        spec_run_ticks(s, inputs).elapsed_ns <= spec_run_ticks(s, inputs).total_ns,
        spec_run_ticks(s, inputs).total_ns == s.total_ns,
        spec_run_ticks(s, inputs).interactive == s.interactive,
        spec_run_ticks(s, inputs).header == s.header,
    decreases inputs.len(),
{
    if inputs.len() > 0 {
        lemma_tick_state_wf(s, inputs[0].0, inputs[0].1, inputs[0].2);
        lemma_run_ticks_wf(
            spec_tick_state(s, inputs[0].0, inputs[0].1, inputs[0].2),
            inputs.drop_first(),
        );
    }
}

/// Interactivity is decided once: no single tick — no key, no seek, no
/// end-of-track — changes `interactive` or the total it was computed
/// from.
pub proof fn lemma_interactivity_fixed(
    s: PlaybackSession,
    pos: u64,
    sink_empty: bool,
    key: Option<Key>,
)
    ensures
        spec_tick_state(s, pos, sink_empty, key).interactive == s.interactive,
        spec_tick_state(s, pos, sink_empty, key).total_ns == s.total_ns,
{
}

/// The volume reached from `v` after `n` up-key presses.
pub open spec fn spec_volume_after_presses(v: u32, n: nat) -> u32
    decreases n,
{
    if n == 0 {
        v
    } else {
        spec_volume_up(spec_volume_after_presses(v, (n - 1) as nat))
    }
}

/// One up-key press never leaves the volume range and never lowers the
/// volume.
pub proof fn lemma_volume_up_bounded(v: u32)
    requires
        v <= VOLUME_MAX_PCT,
    ensures
        v <= spec_volume_up(v) <= VOLUME_MAX_PCT,
{
}

/// At the maximum, up-key presses stop increasing the volume: any
/// number of them leaves it exactly at the maximum.
pub proof fn lemma_volume_stays_at_max(n: nat)
    ensures
        spec_volume_after_presses(VOLUME_MAX_PCT, n) == VOLUME_MAX_PCT,
    decreases n,
{
    if n > 0 {
        lemma_volume_stays_at_max((n - 1) as nat);
    }
}

/// Below the cap, each press adds exactly one step: from normal volume,
/// `k` presses reach `100 + 5k` percent, for `k` up to the twenty that
/// hit the cap.
pub proof fn lemma_volume_presses_linear(k: nat)
    requires
        k <= 20,
    ensures
        spec_volume_after_presses(100, k) == 100 + 5 * k,
    decreases k,
{
    if k > 0 {
        lemma_volume_presses_linear((k - 1) as nat);
    }
}

/// Repeated up-key presses from normal volume converge to exactly the
/// maximum and stay there: twenty or more presses from 100% give
/// exactly 200%.
pub proof fn lemma_volume_converges_from_normal(n: nat)
    requires
        n >= 20,
    ensures
        spec_volume_after_presses(100, n) == VOLUME_MAX_PCT,
    decreases n,
{
    if n == 20 {
        lemma_volume_presses_linear(20);
    } else {
        lemma_volume_converges_from_normal((n - 1) as nat);
    }
}

/// Muting then unmuting, with nothing in between, restores the pre-mute
/// volume exactly — to the step floor: a volume below one step comes
/// back as one step. The mute itself takes the volume to zero and
/// remembers the old one.
pub proof fn lemma_mute_then_unmute_restores(s: PlaybackSession)
    requires
        s.wf(),
        s.volume_pct > 0,
    ensures
        spec_key_state(s, Key::ToggleMute).volume_pct == 0,
        spec_key_state(s, Key::ToggleMute).pre_mute_volume_pct == s.volume_pct,
        spec_key_state(spec_key_state(s, Key::ToggleMute), Key::ToggleMute).volume_pct == if s
            .volume_pct >= VOLUME_STEP_PCT {
            s.volume_pct
        } else {
            VOLUME_STEP_PCT
        },
{
}

} // verus!
