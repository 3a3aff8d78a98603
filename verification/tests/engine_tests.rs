use audio_conv::config::bitrate_type_vbr;
use audio_conv::config::default_flac_compression;
use audio_conv::config::default_mp3_bitrate;
use audio_conv::config::default_opus_bitrate;
use audio_conv::config::BitrateType;
use audio_conv::config::Transcode;
use audio_conv::engine::job_action;
use audio_conv::engine::EncodeStage;
use audio_conv::engine::JobAction;
use audio_conv::tag::MbAlbumArtistId;
use audio_conv::tag::MbArtistId;

#[test]
fn copy_never_invokes_the_engine() {
    assert!(matches!(job_action(&Transcode::Copy), JobAction::ByteCopy));
}

#[test]
fn copy_audio_runs_the_engine_without_re_encoding() {
    match job_action(&Transcode::CopyAudio) {
        JobAction::Engine(stages) => assert_eq!(stages, vec![]),
        JobAction::ByteCopy => panic!("CopyAudio goes through the engine"),
    }
}

#[test]
fn opus_chain_scales_bitrate_to_bits_per_second() {
    let t = Transcode::Opus { bitrate: 160, bitrate_type: BitrateType::Vbr };
    match job_action(&t) {
        JobAction::Engine(stages) => assert_eq!(
            stages,
            vec![
                EncodeStage::Resample { quality: 10 },
                EncodeStage::Convert,
                EncodeStage::OpusEnc { bitrate_bps: 160_000, vbr: true },
                EncodeStage::OggMux,
            ]
        ),
        JobAction::ByteCopy => panic!("Opus goes through the engine"),
    }
}

#[test]
fn largest_opus_bitrate_still_fits() {
    let t = Transcode::Opus { bitrate: u16::MAX, bitrate_type: BitrateType::Cbr };
    match job_action(&t) {
        JobAction::Engine(stages) => assert_eq!(
            stages[2],
            EncodeStage::OpusEnc { bitrate_bps: 65_535_000, vbr: false }
        ),
        JobAction::ByteCopy => panic!("Opus goes through the engine"),
    }
}

#[test]
fn flac_chain_carries_the_compression_level() {
    let t = Transcode::Flac { compression: 8 };
    match job_action(&t) {
        JobAction::Engine(stages) => assert_eq!(
            stages,
            vec![
                EncodeStage::Resample { quality: 10 },
                EncodeStage::Convert,
                EncodeStage::FlacEnc { compression: 8 },
            ]
        ),
        JobAction::ByteCopy => panic!("Flac goes through the engine"),
    }
}

#[test]
fn mp3_chain_carries_bitrate_and_mode() {
    let t = Transcode::Mp3 { bitrate: 256, bitrate_type: BitrateType::Cbr };
    match job_action(&t) {
        JobAction::Engine(stages) => assert_eq!(
            stages,
            vec![
                EncodeStage::Resample { quality: 10 },
                EncodeStage::Convert,
                EncodeStage::LameMp3Enc { bitrate_kbps: 256, cbr: true },
                EncodeStage::Id3v2Mux,
            ]
        ),
        JobAction::ByteCopy => panic!("Mp3 goes through the engine"),
    }
}

#[test]
fn target_extensions_are_fixed_per_format() {
    assert_eq!(Transcode::Opus { bitrate: 1, bitrate_type: BitrateType::Vbr }.extension(), "opus");
    assert_eq!(Transcode::Flac { compression: 1 }.extension(), "flac");
    assert_eq!(Transcode::Mp3 { bitrate: 1, bitrate_type: BitrateType::Cbr }.extension(), "mp3");
    assert_eq!(Transcode::Copy.extension(), "");
    assert_eq!(Transcode::CopyAudio.extension(), "");
}

#[test]
fn defaults_match_the_built_in_target() {
    assert_eq!(default_opus_bitrate(), 160);
    assert_eq!(default_flac_compression(), 5);
    assert_eq!(default_mp3_bitrate(), 256);
    assert!(matches!(bitrate_type_vbr(), BitrateType::Vbr));
    assert!(matches!(
        Transcode::default(),
        Transcode::Opus { bitrate: 160, bitrate_type: BitrateType::Vbr }
    ));
}

#[test]
fn musicbrainz_tags_keep_their_registered_names() {
    assert_eq!(MbArtistId::tag_name(), "musicbrainz-artistid");
    assert_eq!(MbArtistId::nick(), "artist ID");
    assert_eq!(MbArtistId::description(), "MusicBrainz artist ID");
    assert_eq!(MbAlbumArtistId::tag_name(), "musicbrainz-albumartistid");
    assert_eq!(MbAlbumArtistId::nick(), "album artist ID");
    assert_eq!(MbAlbumArtistId::description(), "MusicBrainz album artist ID");
}
