//! Tracks and their metadata.

use vstd::prelude::*;

verus! {

/// What the tags of an audio file say about it. The engine attaches a record
/// to a track and hands it out again; it never looks inside.
#[derive(Debug, PartialEq, Eq)]
pub struct Properties {
    pub title: Option<String>,
    pub artist: Option<String>,
    pub year: Option<u32>,
    /// Length of the audio in whole seconds.
    pub duration: Option<u64>,
    /// The front picture, as the bytes of an image file.
    pub cover: Option<Vec<u8>>,
}

/// The mathematical value of a [`Properties`].
pub struct PropertiesView {
    pub title: Option<Seq<char>>,
    pub artist: Option<Seq<char>>,
    pub year: Option<u32>,
    pub duration: Option<u64>,
    pub cover: Option<Seq<u8>>,
}

/// The characters of an optional string.
pub open spec fn text_view(text: Option<String>) -> Option<Seq<char>> {
    match text {
        Some(s) => Some(s@),
        None => None,
    }
}

/// The bytes of an optional buffer.
pub open spec fn bytes_view(bytes: Option<Vec<u8>>) -> Option<Seq<u8>> {
    match bytes {
        Some(b) => Some(b@),
        None => None,
    }
}

impl View for Properties {
    type V = PropertiesView;

    open spec fn view(&self) -> PropertiesView {
        PropertiesView {
            title: text_view(self.title),
            artist: text_view(self.artist),
            year: self.year,
            duration: self.duration,
            cover: bytes_view(self.cover),
        }
    }
}

impl PropertiesView {
    /// The record of a file whose tags say nothing.
    pub open spec fn blank() -> PropertiesView {
        PropertiesView { title: None, artist: None, year: None, duration: None, cover: None }
    }
}

/// Copies an optional string.
pub fn copy_text(text: &Option<String>) -> (copy: Option<String>)
    ensures
        text_view(copy) == text_view(*text),
{
    match text {
        Some(s) => Some(s.clone()),
        None => None,
    }
}

/// Copies an optional buffer.
pub fn copy_bytes(bytes: &Option<Vec<u8>>) -> (copy: Option<Vec<u8>>)
    ensures
        bytes_view(copy) == bytes_view(*bytes),
{
    match bytes {
        Some(b) => Some(b.clone()),
        None => None,
    }
}

impl Properties {
    /// The record of a file whose tags say nothing.
    pub fn blank() -> (p: Properties)
        ensures
            p@ == PropertiesView::blank(),
    {
        Properties { title: None, artist: None, year: None, duration: None, cover: None }
    }
}

impl Clone for Properties {
    fn clone(&self) -> (copy: Properties)
        ensures
            copy@ == self@,
    {
        Properties {
            title: copy_text(&self.title),
            artist: copy_text(&self.artist),
            year: self.year,
            duration: self.duration,
            cover: copy_bytes(&self.cover),
        }
    }
}

/// One unit of playable audio: where it is, what is known about it, and how
/// far into it playback is.
#[derive(Debug, PartialEq, Eq)]
pub struct Music {
    /// Names the audio. Most often a file path, but any name will do that the
    /// output side can resolve to playable bytes.
    pub path: String,
    pub properties: Option<Properties>,
    /// Whole seconds played so far.
    pub position: u64,
    /// True while the track is producing sound.
    pub playing: bool,
}

/// The mathematical value of a [`Music`].
pub struct MusicView {
    pub path: Seq<char>,
    pub properties: Option<PropertiesView>,
    pub position: u64,
    pub playing: bool,
}

/// The value of an optional metadata record.
pub open spec fn properties_view(properties: Option<Properties>) -> Option<PropertiesView> {
    match properties {
        Some(p) => Some(p@),
        None => None,
    }
}

impl View for Music {
    type V = MusicView;

    open spec fn view(&self) -> MusicView {
        MusicView {
            path: self.path@,
            properties: properties_view(self.properties),
            position: self.position,
            playing: self.playing,
        }
    }
}

impl MusicView {
    /// A track as it waits in the queue: nothing played, no sound.
    pub open spec fn pending(path: Seq<char>, properties: Option<PropertiesView>) -> MusicView {
        MusicView { path, properties, position: 0, playing: false }
    }

    /// Whether this track is one that waits: nothing played, no sound.
    pub open spec fn is_pending(self) -> bool {
        self.position == 0 && !self.playing
    }

    /// This track as it begins to play.
    pub open spec fn begun(self) -> MusicView {
        MusicView { position: 0, playing: true, ..self }
    }

    /// This track with its position set and its flag unchanged.
    pub open spec fn at(self, position: u64) -> MusicView {
        MusicView { position, ..self }
    }

    /// This track with its flag set and its position unchanged.
    pub open spec fn sounding(self, playing: bool) -> MusicView {
        MusicView { playing, ..self }
    }
}

/// The values of the tracks of a list, in order.
pub open spec fn tracks_view(tracks: Seq<Music>) -> Seq<MusicView> {
    tracks.map_values(|m: Music| m@)
}

/// The value of an optional track.
pub open spec fn track_view(track: Option<Music>) -> Option<MusicView> {
    match track {
        Some(m) => Some(m@),
        None => None,
    }
}

impl Music {
    /// A track that waits in the queue.
    pub fn pending(path: String, properties: Option<Properties>) -> (m: Music)
        ensures
            m@ == MusicView::pending(path@, properties_view(properties)),
    {
        Music { path, properties, position: 0, playing: false }
    }
}

impl Clone for Music {
    fn clone(&self) -> (copy: Music)
        ensures
            copy@ == self@,
    {
        let properties = match &self.properties {
            Some(p) => Some(p.clone()),
            None => None,
        };
        Music {
            path: self.path.clone(),
            properties,
            position: self.position,
            playing: self.playing,
        }
    }
}

/// Copies a list of tracks.
pub fn copy_tracks(tracks: &Vec<Music>) -> (copy: Vec<Music>)
    ensures
        tracks_view(copy@) == tracks_view(tracks@),
{
    let mut copy: Vec<Music> = Vec::new();
    let mut i: usize = 0;
    while i < tracks.len()
        invariant
            i <= tracks.len(),
            copy.len() == i,
            forall|k: int| 0 <= k < i ==> copy[k]@ == tracks[k]@,
        decreases tracks.len() - i,
    {
        copy.push(tracks[i].clone());
        i = i + 1;
    }
    assert(tracks_view(copy@) =~= tracks_view(tracks@));
    copy
}

/// Copies an optional track.
pub fn copy_track(track: &Option<Music>) -> (copy: Option<Music>)
    ensures
        track_view(copy) == track_view(*track),
{
    match track {
        Some(m) => Some(m.clone()),
        None => None,
    }
}

} // verus!
