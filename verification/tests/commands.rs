use audio_hook::render::truncate_count;
use audio_hook::SoundBeepCmd;
use unicode_width::UnicodeWidthChar;
use audio_hook::SoundMakeCmd;
use audio_hook::SoundMetaGetCmd;
use audio_hook::SoundMetaSetCmd;
use audio_hook::SoundPlayCmd;

#[test]
fn command_names() {
    assert_eq!(SoundPlayCmd.name(), "sound play");
    assert_eq!(SoundMetaGetCmd.name(), "sound meta");
    assert_eq!(SoundMetaSetCmd.name(), "sound meta set");
    assert_eq!(SoundMakeCmd.name(), "sound make");
    assert_eq!(SoundBeepCmd.name(), "sound beep");
}

#[test]
fn command_descriptions_mention_their_work() {
    assert!(SoundPlayCmd.description().contains("play an audio file"));
    assert_eq!(SoundMetaGetCmd.description(), "get duration and metadata of an audio file");
    assert_eq!(SoundMetaSetCmd.description(), "set a metadata tag on an audio file");
    assert_eq!(SoundMakeCmd.description(), "creates a noise with given frequency and duration");
    assert_eq!(SoundBeepCmd.description(), "creates a beep noise");
}

#[test]
fn truncation_depends_on_real_character_widths() {
    // Sanity check against the width crate the library links: an East
    // Asian wide character really is two columns, a Latin letter one, so
    // the header truncation cannot be a plain character count.
    assert_eq!('你'.width(), Some(2));
    assert_eq!('a'.width(), Some(1));
    assert_eq!(truncate_count("你a你a", 4), 2);
    assert_eq!(truncate_count("你a你a", 5), 3);
}
