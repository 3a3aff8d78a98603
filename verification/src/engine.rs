//! The engine pipeline plan of one job.
//!
//! The outside transcoding engine is driven by the surrounding program; the
//! library fixes, per target, what it is asked to build: a typed chain of
//! encode stages selected by the target's tag, never a string-keyed property
//! map. A raw-copy job never touches the engine at all.

use vstd::prelude::*;
use crate::config::BitrateType;
use crate::config::Transcode;

verus! {

/// The resample quality the plan always asks of the engine, on its zero to
/// ten scale.
pub const RESAMPLE_QUALITY: i32 = 10;

/// One element of the encode chain, typed by what it does.
#[derive(Clone, Copy, Debug, PartialEq, Eq, Structural)]
pub enum EncodeStage {
    /// Sample-rate conversion at the given quality.
    Resample { quality: i32 },
    /// Sample format, bit depth and layout conversion.
    Convert,
    /// The Opus encoder: bitrate in bits per second, variable or constant.
    OpusEnc { bitrate_bps: i32, vbr: bool },
    /// The Ogg container around an Opus stream.
    OggMux,
    /// The Flac encoder at the given compression level.
    FlacEnc { compression: u8 },
    /// The Mp3 encoder: target bitrate in kbit/s, constant or variable.
    LameMp3Enc { bitrate_kbps: i32, cbr: bool },
    /// The ID3v2 frame around an Mp3 stream.
    Id3v2Mux,
}

/// What the job runner does to produce its temp file.
#[derive(Debug)]
pub enum JobAction {
    /// A raw byte copy of the source file; the engine is never invoked.
    ByteCopy,
    /// The engine decodes the source and runs it through these stages into
    /// the temp file; an empty chain copies the audio stream un-re-encoded.
    Engine(Vec<EncodeStage>),
}

/// The encode chain a non-copy target asks of the engine. Every re-encode
/// resamples and converts first; the encoder and its container follow from
/// the target's tag; an audio stream copy needs no stage at all.
pub open spec fn spec_encode_stages(t: Transcode) -> Seq<EncodeStage>
    recommends
        !(t is Copy),
{
    match t {
        Transcode::Opus { bitrate, bitrate_type } => seq![
            EncodeStage::Resample { quality: RESAMPLE_QUALITY },
            EncodeStage::Convert,
            EncodeStage::OpusEnc {
                bitrate_bps: (bitrate * 1000) as i32,
                vbr: bitrate_type is Vbr,
            },
            EncodeStage::OggMux,
        ],
        Transcode::Flac { compression } => seq![
            EncodeStage::Resample { quality: RESAMPLE_QUALITY },
            EncodeStage::Convert,
            EncodeStage::FlacEnc { compression },
        ],
        Transcode::Mp3 { bitrate, bitrate_type } => seq![
            EncodeStage::Resample { quality: RESAMPLE_QUALITY },
            EncodeStage::Convert,
            EncodeStage::LameMp3Enc {
                bitrate_kbps: bitrate as i32,
                cbr: bitrate_type is Cbr,
            },
            EncodeStage::Id3v2Mux,
        ],
        Transcode::Copy => Seq::empty(),
        Transcode::CopyAudio => Seq::empty(),
    }
}

/// The action for one job's target: a raw byte copy for `Copy`, the engine
/// with the target's encode chain otherwise. The Opus bitrate, configured in
/// kbit/s in a sixteen-bit field, always fits the engine's thirty-two-bit
/// bits-per-second property.
pub fn job_action(t: &Transcode) -> (r: JobAction)
    ensures
        t is Copy ==> r is ByteCopy,
        !(t is Copy) ==> (r matches JobAction::Engine(stages) && stages@ == spec_encode_stages(
            *t,
        )),
{
    match t {
        Transcode::Copy => JobAction::ByteCopy,
        Transcode::CopyAudio => JobAction::Engine(Vec::new()),
        Transcode::Opus { bitrate, bitrate_type } => {
            let bps: i32 = (*bitrate as i32) * 1000;
            let vbr = match bitrate_type {
                BitrateType::Vbr => true,
                BitrateType::Cbr => false,
            };
            let mut v: Vec<EncodeStage> = Vec::new();
            v.push(EncodeStage::Resample { quality: RESAMPLE_QUALITY });
            v.push(EncodeStage::Convert);
            v.push(EncodeStage::OpusEnc { bitrate_bps: bps, vbr });
            v.push(EncodeStage::OggMux);
            proof {
                assert(v@ =~= spec_encode_stages(*t));
            }
            JobAction::Engine(v)
        },
        Transcode::Flac { compression } => {
            let mut v: Vec<EncodeStage> = Vec::new();
            v.push(EncodeStage::Resample { quality: RESAMPLE_QUALITY });
            v.push(EncodeStage::Convert);
            v.push(EncodeStage::FlacEnc { compression: *compression });
            proof {
                assert(v@ =~= spec_encode_stages(*t));
            }
            JobAction::Engine(v)
        },
        Transcode::Mp3 { bitrate, bitrate_type } => {
            let kbps: i32 = *bitrate as i32;
            let cbr = match bitrate_type {
                BitrateType::Cbr => true,
                BitrateType::Vbr => false,
            };
            let mut v: Vec<EncodeStage> = Vec::new();
            v.push(EncodeStage::Resample { quality: RESAMPLE_QUALITY });
            v.push(EncodeStage::Convert);
            v.push(EncodeStage::LameMp3Enc { bitrate_kbps: kbps, cbr });
            v.push(EncodeStage::Id3v2Mux);
            proof {
                assert(v@ =~= spec_encode_stages(*t));
            }
            JobAction::Engine(v)
        },
    }
}

} // verus!
