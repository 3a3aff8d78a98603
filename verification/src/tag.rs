//! The MusicBrainz tags the engine is taught at startup.
//!
//! The engine keeps tags under registered names; these markers fix, as plain
//! values, the names and descriptions of the two MusicBrainz identifiers this
//! program registers. The registration itself, and the merging of repeated
//! values, happen in the engine bindings outside the library.

use vstd::prelude::*;

verus! {

/// The MusicBrainz artist identifier tag.
#[derive(Clone, Copy, Debug)]
pub struct MbArtistId;

impl MbArtistId {
    /// The tag's registered name.
    pub fn tag_name() -> (r: &'static str)
        ensures
            r@ == "musicbrainz-artistid"@,
    {
        "musicbrainz-artistid"
    }

    /// The tag's short human-readable name.
    pub fn nick() -> (r: &'static str)
        ensures
            r@ == "artist ID"@,
    {
        "artist ID"
    }

    /// The tag's description.
    pub fn description() -> (r: &'static str)
        ensures
            r@ == "MusicBrainz artist ID"@,
    {
        "MusicBrainz artist ID"
    }
}

/// The MusicBrainz album-artist identifier tag.
#[derive(Clone, Copy, Debug)]
pub struct MbAlbumArtistId;

impl MbAlbumArtistId {
    /// The tag's registered name.
    pub fn tag_name() -> (r: &'static str)
        ensures
            r@ == "musicbrainz-albumartistid"@,
    {
        "musicbrainz-albumartistid"
    }

    /// The tag's short human-readable name.
    pub fn nick() -> (r: &'static str)
        ensures
            r@ == "album artist ID"@,
    {
        "album artist ID"
    }

    /// The tag's description.
    pub fn description() -> (r: &'static str)
        ensures
            r@ == "MusicBrainz album artist ID"@,
    {
        "MusicBrainz album artist ID"
    }
}

} // verus!
