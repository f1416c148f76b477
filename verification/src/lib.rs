//! Core logic of an interactive terminal audio player: duration resolution,
//! glyph-set selection, progress rendering, the playback-session state
//! machine, and PCM WAV encoding.
//!
//! Everything here is pure computation over plain values; the host binary
//! owns the audio sink, the terminal, and the event loop, and drives these
//! functions with the values it reads from them.
pub mod commands;
pub mod duration;
pub mod icons;
pub mod render;
pub mod session;
pub mod utils;
pub mod wav;
pub mod width;

pub use commands::SoundBeepCmd;
pub use commands::SoundMakeCmd;
pub use commands::SoundMetaGetCmd;
pub use commands::SoundMetaSetCmd;
pub use commands::SoundPlayCmd;
pub use utils::format_duration;
