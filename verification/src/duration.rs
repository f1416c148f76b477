//! Resolution of the authoritative playback duration, and the small timing
//! rules of the playback loop.
//!
//! Durations and positions are carried as whole nanoseconds, the precision
//! at which the host hands them over.
use vstd::prelude::*;

verus! {

/// How long the loop sleeps between keyboard polls.
pub const KEY_POLL_INTERVAL_MS: u64 = 200;

/// Least time between two periodic redraws of the progress line.
pub const RENDER_INTERVAL_MS: u64 = 500;

/// How far one seek key press moves the position.
pub const SEEK_STEP_NS: u64 = 5_000_000_000;

/// Tracks at least this long get interactive keyboard controls.
pub const CONTROLS_THRESHOLD_NS: u64 = 60_000_000_000;

/// Played when no source reports a duration, so a session never hangs
/// without bound: one hour.
pub const FALLBACK_TOTAL_NS: u64 = 3_600_000_000_000;

/// The authoritative playback duration: an explicit override wins, then
/// the decoder-reported duration, then the container-header duration
/// (a zero header value counts as absent), then the one-hour fallback.
pub open spec fn spec_resolve_total(
    override_ns: Option<u64>,
    decoder_ns: Option<u64>,
    header_ns: Option<u64>,
) -> u64 {
    if override_ns is Some {
        override_ns->0
    } else if decoder_ns is Some {
        decoder_ns->0
    } else if header_ns is Some && header_ns->0 != 0 {
        header_ns->0
    } else {
        FALLBACK_TOTAL_NS
    }
}

/// Picks the playback duration from the explicit override, the
/// decoder-reported duration and the container-header duration, in that
/// order of priority; a zero-valued header duration is treated as absent,
/// and one hour is the fallback when every source is silent.
pub fn resolve_total_duration(
    override_ns: Option<u64>,
    decoder_ns: Option<u64>,
    header_ns: Option<u64>,
) -> (r: u64)
    ensures
        r == spec_resolve_total(override_ns, decoder_ns, header_ns),
{
    match override_ns {
        Some(d) => d,
        None => match decoder_ns {
            Some(d) => d,
            None => match header_ns {
                Some(d) if d != 0 => d,
                _ => FALLBACK_TOTAL_NS,
            },
        },
    }
}

/// Validates a signed nanosecond count from the host's duration flag:
/// negative values are rejected, everything else is taken as is.
pub fn duration_ns_from_signed(val: i64) -> (r: Option<u64>)
    ensures
        r == if val >= 0 {
            Some(val as u64)
        } else {
            None::<u64>
        },
{
    if val >= 0 {
        Some(val as u64)
    } else {
        None
    }
}

/// Whether a session without a progress display keeps waiting: playback
/// goes on while the clock has not reached the target duration and the
/// sink still holds sound.
pub fn silent_should_continue(elapsed_ns: u64, total_ns: u64, sink_empty: bool) -> (r: bool)
    ensures
        r == (elapsed_ns < total_ns && !sink_empty),
{
    elapsed_ns < total_ns && !sink_empty
}

/// Whether this tick redraws the line: immediately after a state-changing
/// key, and otherwise at most once per render interval.
pub fn render_due(needs_render: bool, millis_since_last_render: u64) -> (r: bool)
    ensures
        r == (needs_render || millis_since_last_render >= RENDER_INTERVAL_MS),
{
    needs_render || millis_since_last_render >= RENDER_INTERVAL_MS
}

} // verus!
