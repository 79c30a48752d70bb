//! One session's playback state at a single poll instant, and its assembly
//! from the plain metadata a session source hands over.

use vstd::prelude::*;

verus! {

/// Mathematical image of a [`MediaSnapshot`]: every string as a sequence of
/// characters, the artwork as a sequence of bytes.
#[verifier::ext_equal]
pub struct SnapshotView {
    pub source_id: Seq<char>,
    pub song_name: Seq<char>,
    pub artist: Seq<char>,
    pub album: Seq<char>,
    pub start_time: u64,
    pub end_time: u64,
    pub position: u64,
    pub playing: bool,
    pub artwork: Seq<u8>,
    pub artwork_changed: bool,
}

/// Plain metadata of one media session as the session source reports it:
/// identifier, titles, timeline in milliseconds, and whether it is playing.
pub struct SessionInfo {
    pub source_id: String,
    pub song_name: String,
    pub artist: String,
    pub album: String,
    pub start_time: u64,
    pub end_time: u64,
    pub position: u64,
    pub playing: bool,
}

impl View for SessionInfo {
    type V = SnapshotView;

    /// The snapshot this metadata would yield with no artwork attached.
    open spec fn view(&self) -> SnapshotView {
        SnapshotView {
            source_id: self.source_id@,
            song_name: self.song_name@,
            artist: self.artist@,
            album: self.album@,
            start_time: self.start_time,
            end_time: self.end_time,
            position: self.position,
            playing: self.playing,
            artwork: Seq::empty(),
            artwork_changed: false,
        }
    }
}

/// One frame element pushed to a client: immutable once constructed.
pub struct MediaSnapshot {
    pub source_id: String,
    pub song_name: String,
    pub artist: String,
    pub album: String,
    pub start_time: u64,
    pub end_time: u64,
    pub position: u64,
    pub playing: bool,
    pub artwork: Vec<u8>,
    pub artwork_changed: bool,
}

impl View for MediaSnapshot {
    type V = SnapshotView;

    open spec fn view(&self) -> SnapshotView {
        SnapshotView {
            source_id: self.source_id@,
            song_name: self.song_name@,
            artist: self.artist@,
            album: self.album@,
            start_time: self.start_time,
            end_time: self.end_time,
            position: self.position,
            playing: self.playing,
            artwork: self.artwork@,
            artwork_changed: self.artwork_changed,
        }
    }
}

impl MediaSnapshot {
    /// A snapshot carries artwork bytes only when the artwork changed.
    pub open spec fn wf(self) -> bool {
        !self.artwork_changed ==> self.artwork@.len() == 0
    }
}

/// Assembles the snapshot for one session of one polling cycle. The artwork
/// bytes are attached exactly when `artwork_changed` holds; otherwise the
/// snapshot carries no artwork, whatever was handed in.
pub fn make_snapshot(info: SessionInfo, artwork_changed: bool, artwork: Vec<u8>) -> (r:
    MediaSnapshot)
    ensures
        r.wf(),
        r@.source_id == info@.source_id,
        r@.song_name == info@.song_name,
        r@.artist == info@.artist,
        r@.album == info@.album,
        r@.start_time == info@.start_time,
        r@.end_time == info@.end_time,
        r@.position == info@.position,
        r@.playing == info@.playing,
        r@.artwork_changed == artwork_changed,
        artwork_changed ==> r@.artwork == artwork@,
        !artwork_changed ==> r@.artwork.len() == 0,
{
    let art: Vec<u8> = if artwork_changed {
        artwork
    } else {
        Vec::new()
    };
    MediaSnapshot {
        source_id: info.source_id,
        song_name: info.song_name,
        artist: info.artist,
        album: info.album,
        start_time: info.start_time,
        end_time: info.end_time,
        position: info.position,
        playing: info.playing,
        artwork: art,
        artwork_changed,
    }
}

} // verus!
