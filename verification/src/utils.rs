//! Helpers at the edge of the engine: what is on disk, what time it is, and
//! what the tags of a file say.

use crate::metadata::{
    cover_of,
    entries_view,
    properties_of,
    read_view,
    ScanEntry,
    ScanEntryView,
    Tag,
    TagRead,
};
use crate::track::{bytes_view, tracks_view, Music, MusicView, Properties};
use std::time::{Duration, SystemTime, SystemTimeError};
use vstd::prelude::*;
use vstd::string::*;

verus! {

/// Makes `std::time::SystemTime` known to the verifier as a type whose
/// values it cannot look into.
#[verifier::external_type_specification]
#[verifier::external_body]
pub struct ExSystemTime(std::time::SystemTime);

/// Calls `std::time::SystemTime::now`. Nothing is claimed of the reading.
#[verifier::external_body]
fn wall_clock() -> (reading: SystemTime) {
    SystemTime::now()
}

/// Makes `std::time::SystemTimeError` known to the verifier as a type whose
/// values it cannot look into.
#[verifier::external_type_specification]
#[verifier::external_body]
pub struct ExSystemTimeError(std::time::SystemTimeError);

/// Calls `std::time::SystemTime::duration_since` with the Unix epoch as the
/// earlier instant, and hands back what the call gave. Nothing is claimed
/// of it.
#[verifier::external_body]
fn since_epoch(reading: &SystemTime) -> (outcome: Result<Duration, SystemTimeError>) {
    reading.duration_since(std::time::UNIX_EPOCH)
}

/// The timestamp that a comparison of the clock with the epoch gives: the
/// time between the two where the clock is not before the epoch, and none
/// where it is.
pub open spec fn timestamp_of(outcome: Result<Duration, SystemTimeError>) -> Option<Duration> {
    match outcome {
        Ok(elapsed) => Some(elapsed),
        Err(_) => None,
    }
}

/// The names that end in this are kept out of a listing: they mark a
/// directory that has to exist while it holds no audio.
pub open spec fn keep_marker() -> Seq<char> {
    seq!['.', 'g', 'e', 'e', 't', 'k', 'e', 'e', 'p']
}

/// Whether `text` ends in `suffix`.
pub open spec fn ends_with(text: Seq<char>, suffix: Seq<char>) -> bool {
    text.len() >= suffix.len() && text.subrange(text.len() - suffix.len(), text.len() as int)
        == suffix
}

/// Whether an entry with this path is listed.
pub open spec fn is_listed(path: Seq<char>) -> bool {
    !ends_with(path, keep_marker())
}

/// The track that a listing shows for an entry: pending, with the record of
/// what was read from it.
pub open spec fn listed_track(entry: ScanEntryView) -> MusicView {
    MusicView::pending(entry.path, Some(properties_of(entry.read)))
}

/// The listing of a directory with these entries: a track for each entry
/// that is listed, in the order of the entries.
pub open spec fn listing(entries: Seq<ScanEntryView>) -> Seq<MusicView>
    decreases entries.len(),
{
    if entries.len() == 0 {
        Seq::empty()
    } else if is_listed(entries.last().path) {
        listing(entries.drop_last()).push(listed_track(entries.last()))
    } else {
        listing(entries.drop_last())
    }
}

/// Takes the front picture out of a tag's pictures.
fn take_front(pictures: Vec<Vec<u8>>) -> (front: Option<Vec<u8>>)
    ensures
        bytes_view(front) == if pictures@.len() > 0 {
            Some(pictures@[0]@)
        } else {
            None
        },
{
    let mut pictures = pictures;
    if pictures.len() > 0 {
        Some(pictures.swap_remove(0))
    } else {
        None
    }
}

/// A namespace for the helpers.
#[derive(Clone, Copy, Debug)]
pub struct Utils;

impl Utils {
    /// The record to attach to a track, from what was read from its file.
    /// `None` stands for a file that could not be read.
    pub fn get_properties(self, read: Option<TagRead>) -> (properties: Properties)
        ensures
            properties@ == properties_of(read_view(read)),
    {
        match read {
            Some(TagRead { tag: Some(tag), duration }) => {
                let Tag { title, artist, year, pictures } = tag;
                Properties { title, artist, year, duration: Some(duration), cover: take_front(pictures) }
            },
            _ => Properties::blank(),
        }
    }

    /// The cover of a file, from what was read from it. `None` stands for a
    /// file that could not be read.
    pub fn get_cover(self, read: Option<TagRead>) -> (cover: Option<Vec<u8>>)
        ensures
            bytes_view(cover) == cover_of(read_view(read)),
    {
        match read {
            Some(TagRead { tag: Some(tag), .. }) => take_front(tag.pictures),
            _ => None,
        }
    }

    /// Whether a path ends in the marker that keeps it out of a listing.
    pub fn is_keep_marker(self, path: &str) -> (marked: bool)
        ensures
            marked == ends_with(path@, keep_marker()),
    {
        let marker = ".geetkeep";
        proof {
            reveal_strlit(".geetkeep");
            assert(marker@ =~= keep_marker());
        }
        let n: usize = path.unicode_len();
        let m: usize = marker.unicode_len();
        if n < m {
            return false;
        }
        let offset: usize = n - m;
        let mut k: usize = 0;
        while k < m
            invariant
                k <= m,
                m == marker@.len(),
                n == path@.len(),
                offset == n - m,
                marker@ == keep_marker(),
                forall|j: int| 0 <= j < k ==> path@[offset + j] == marker@[j],
            decreases m - k,
        {
            if path.get_char(offset + k) != marker.get_char(k) {
                proof {
                    let tail = path@.subrange(path@.len() - marker@.len(), path@.len() as int);
                    assert(tail[k as int] == path@[offset + k]);
                }
                return false;
            }
            k = k + 1;
        }
        assert(path@.subrange(path@.len() - marker@.len(), path@.len() as int) =~= marker@);
        true
    }

    /// The tracks that a directory offers, from its entries and what was
    /// read from each: a pending track for each entry, in the order given,
    /// but for the entries whose path ends in the keep marker.
    pub fn get_available_musics(&self, entries: Vec<ScanEntry>) -> (tracks: Vec<Music>)
        ensures
            tracks_view(tracks@) == listing(entries_view(entries@)),
    {
        let mut tracks: Vec<Music> = Vec::new();
        for entry in it: entries.into_iter()
            invariant
                it.seq() == entries@,
                tracks_view(tracks@) == listing(entries_view(entries@.take(it.index() as int))),
        {
            let ghost done = entries_view(entries@.take(it.index() as int));
            let ghost more = entries_view(entries@.take(it.index() + 1));
            proof {
                assert(more.drop_last() =~= done);
                assert(more.last() == entry@);
            }
            let ScanEntry { path, read } = entry;
            if !self.is_keep_marker(path.as_str()) {
                let track = Music::pending(path, Some(self.get_properties(read)));
                tracks.push(track);
                assert(tracks_view(tracks@) =~= listing(done).push(track@));
            }
        }
        assert(entries@.take(entries@.len() as int) =~= entries@);
        tracks
    }

    /// Whether something is to be found under `path` right now. The answer
    /// is that of `std::path::Path::exists` and may differ from one call to
    /// the next.
    #[verifier::external_body]
    pub fn path_exists(self, path: &str) -> (found: bool) {
        std::path::Path::new(path).exists()
    }

    /// The timestamp that a comparison of the clock with the epoch gives.
    /// A clock that reads a time before the epoch gives none.
    pub fn timestamp_from(self, outcome: Result<Duration, SystemTimeError>) -> (elapsed: Option<
        Duration,
    >)
        ensures
            elapsed == timestamp_of(outcome),
    {
        match outcome {
            Ok(elapsed) => Some(elapsed),
            Err(_) => None,
        }
    }

    /// The time since the Unix epoch by the system's clock, or `None` where
    /// that clock reads a time before the epoch. Reads the clock, compares
    /// the reading with the epoch and goes on as [`Utils::timestamp_from`]
    /// does with what that gave. Nothing is promised of the result: it is
    /// the clock's to decide, and differs from one call to the next.
    pub fn get_timestamp(self) -> (elapsed: Option<Duration>) {
        let reading = wall_clock();
        let outcome = since_epoch(&reading);
        self.timestamp_from(outcome)
    }
}

} // verus!
