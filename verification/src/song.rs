//! The played-or-playing track shown in the "currently playing" widget.
//!
//! A resolved answer is one of three states: a track streaming right now,
//! the most recently completed play with its timestamp, or no history at
//! all. The third state is the `None` of an `Option<Song>` — it is a valid,
//! cacheable answer, distinct from "not yet fetched".

use vstd::prelude::*;

verus! {

/// A track that is streaming at this moment; always fresh, so it carries no
/// timestamp.
#[derive(Debug, PartialEq, Eq)]
pub struct NowPlayingTrack {
    pub artist: String,
    pub title: String,
    pub album: String,
    pub image_url: String,
}

impl Clone for NowPlayingTrack {
    fn clone(&self) -> (r: Self)
        ensures
            r == *self,
    {
        NowPlayingTrack {
            artist: self.artist.clone(),
            title: self.title.clone(),
            album: self.album.clone(),
            image_url: self.image_url.clone(),
        }
    }
}

/// The most recently completed play, with the moment it was scrobbled as
/// seconds since the Unix epoch.
#[derive(Debug, PartialEq, Eq)]
pub struct RecordedTrack {
    pub artist: String,
    pub title: String,
    pub album: String,
    pub image_url: String,
    pub played_at: i64,
}

impl Clone for RecordedTrack {
    fn clone(&self) -> (r: Self)
        ensures
            r == *self,
    {
        RecordedTrack {
            artist: self.artist.clone(),
            title: self.title.clone(),
            album: self.album.clone(),
            image_url: self.image_url.clone(),
            played_at: self.played_at,
        }
    }
}

/// A playable answer: either streaming right now or the most recent past
/// play. "No history at all" is represented as `None` at the use sites.
#[derive(Debug, PartialEq, Eq)]
pub enum Song {
    Now(NowPlayingTrack),
    Previous(RecordedTrack),
}

impl Clone for Song {
    fn clone(&self) -> (r: Self)
        ensures
            r == *self,
    {
        match self {
            Song::Now(t) => Song::Now(t.clone()),
            Song::Previous(t) => Song::Previous(t.clone()),
        }
    }
}

} // verus!
