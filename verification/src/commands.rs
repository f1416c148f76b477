//! The command surface of the plugin: one marker type per shell
//! command, each knowing its registered name and its help text. The
//! host wires these to its plugin protocol and dispatches to the
//! library's logic.
use vstd::prelude::*;

verus! {

/// The `sound play` command: decodes and plays an audio file with a
/// live progress display and optional keyboard controls.
pub struct SoundPlayCmd;

impl SoundPlayCmd {
    /// The name the command registers under.
    pub fn name(&self) -> (r: &'static str)
        ensures
            r@ == "sound play"@,
    {
        "sound play"
    }

    /// The command's help text.
    pub fn description(&self) -> (r: &'static str)
        ensures
            r@
                == "play an audio file; by default supports FLAC, WAV, MP3 and OGG files (install with `all-decoders` feature to include AAC and MP4). Displays live playback stats by default; use --no-progress (-q) to suppress output for scripting or background use. Interactive controls (space, arrows) are available for files longer than 1 minute, including volume up/down and 5s seeking. Use --nerd-fonts (-n) or set NERD_FONTS=1 for richer icons."@,
    {
        "play an audio file; by default supports FLAC, WAV, MP3 and OGG files (install with `all-decoders` feature to include AAC and MP4). Displays live playback stats by default; use --no-progress (-q) to suppress output for scripting or background use. Interactive controls (space, arrows) are available for files longer than 1 minute, including volume up/down and 5s seeking. Use --nerd-fonts (-n) or set NERD_FONTS=1 for richer icons."
    }
}

/// The `sound meta` command: reads metadata and stream properties of
/// an audio file.
pub struct SoundMetaGetCmd;

impl SoundMetaGetCmd {
    /// The name the command registers under.
    pub fn name(&self) -> (r: &'static str)
        ensures
            r@ == "sound meta"@,
    {
        "sound meta"
    }

    /// The command's help text.
    pub fn description(&self) -> (r: &'static str)
        ensures
            r@ == "get duration and metadata of an audio file"@,
    {
        "get duration and metadata of an audio file"
    }
}

/// The `sound meta set` command: writes one metadata tag of an audio
/// file.
pub struct SoundMetaSetCmd;

impl SoundMetaSetCmd {
    /// The name the command registers under.
    pub fn name(&self) -> (r: &'static str)
        ensures
            r@ == "sound meta set"@,
    {
        "sound meta set"
    }

    /// The command's help text.
    pub fn description(&self) -> (r: &'static str)
        ensures
            r@ == "set a metadata tag on an audio file"@,
    {
        "set a metadata tag on an audio file"
    }
}

/// The `sound make` command: synthesizes a tone and plays it or
/// returns it WAV-encoded.
pub struct SoundMakeCmd;

impl SoundMakeCmd {
    /// The name the command registers under.
    pub fn name(&self) -> (r: &'static str)
        ensures
            r@ == "sound make"@,
    {
        "sound make"
    }

    /// The command's help text.
    pub fn description(&self) -> (r: &'static str)
        ensures
            r@ == "creates a noise with given frequency and duration"@,
    {
        "creates a noise with given frequency and duration"
    }
}

/// The `sound beep` command: plays a short fixed beep.
pub struct SoundBeepCmd;

impl SoundBeepCmd {
    /// The name the command registers under.
    pub fn name(&self) -> (r: &'static str)
        ensures
            r@ == "sound beep"@,
    {
        "sound beep"
    }

    /// The command's help text.
    pub fn description(&self) -> (r: &'static str)
        ensures
            r@ == "creates a beep noise"@,
    {
        "creates a beep noise"
    }
}

} // verus!
