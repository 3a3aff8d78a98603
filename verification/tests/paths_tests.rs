use audio_conv::config::BitrateType;
use audio_conv::config::Transcode;
use audio_conv::paths::dest_rel_path;
use audio_conv::paths::temp_rel_path;
use audio_conv::paths::with_extension;

fn opus() -> Transcode {
    Transcode::Opus { bitrate: 160, bitrate_type: BitrateType::Vbr }
}

#[test]
fn dest_path_swaps_extension_for_encodes() {
    assert_eq!(dest_rel_path(&b"a.flac".to_vec(), &opus()), b"a.opus".to_vec());
    assert_eq!(
        dest_rel_path(&b"a.flac".to_vec(), &Transcode::Mp3 { bitrate: 256, bitrate_type: BitrateType::Cbr }),
        b"a.mp3".to_vec()
    );
    assert_eq!(
        dest_rel_path(&b"a.wav".to_vec(), &Transcode::Flac { compression: 5 }),
        b"a.flac".to_vec()
    );
}

#[test]
fn dest_path_keeps_extension_for_copies() {
    assert_eq!(dest_rel_path(&b"c.wav".to_vec(), &Transcode::Copy), b"c.wav".to_vec());
    assert_eq!(dest_rel_path(&b"c.wav".to_vec(), &Transcode::CopyAudio), b"c.wav".to_vec());
}

#[test]
fn dest_path_swaps_in_nested_directories() {
    assert_eq!(
        dest_rel_path(&b"artist/album/track.flac".to_vec(), &opus()),
        b"artist/album/track.opus".to_vec()
    );
}

#[test]
fn extension_swap_appends_when_there_is_none() {
    assert_eq!(dest_rel_path(&b"noext".to_vec(), &opus()), b"noext.opus".to_vec());
    assert_eq!(dest_rel_path(&b"dir.d/noext".to_vec(), &opus()), b"dir.d/noext.opus".to_vec());
}

#[test]
fn leading_dot_starts_no_extension() {
    assert_eq!(dest_rel_path(&b".flac".to_vec(), &opus()), b".flac.opus".to_vec());
    assert_eq!(dest_rel_path(&b"dir/.flac".to_vec(), &opus()), b"dir/.flac.opus".to_vec());
}

#[test]
fn only_the_last_extension_is_swapped() {
    assert_eq!(dest_rel_path(&b"a.b.flac".to_vec(), &opus()), b"a.b.opus".to_vec());
}

#[test]
fn empty_extension_cuts_the_old_one() {
    assert_eq!(with_extension(&b"a.flac".to_vec(), &Vec::new()), b"a".to_vec());
    assert_eq!(with_extension(&b"a".to_vec(), &Vec::new()), b"a".to_vec());
}

#[test]
fn temp_path_uses_reserved_suffix() {
    assert_eq!(temp_rel_path(&b"a.opus".to_vec()), b"a.tmp".to_vec());
    assert_eq!(temp_rel_path(&b"c.wav".to_vec()), b"c.tmp".to_vec());
    assert_eq!(temp_rel_path(&b"noext".to_vec()), b"noext.tmp".to_vec());
    assert_eq!(temp_rel_path(&b"d/e.f/g.opus".to_vec()), b"d/e.f/g.tmp".to_vec());
}
