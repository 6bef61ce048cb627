//! Metadata as a reader of tags hands it over.
//!
//! Reading tags means opening files, which is not the engine's business. The
//! one who reads fills these records in, and [`crate::utils::Utils`] turns
//! them into what the engine attaches to a track.

use crate::track::{text_view, PropertiesView};
use vstd::prelude::*;

verus! {

/// The fields of one tag.
#[derive(Debug, PartialEq, Eq)]
pub struct Tag {
    pub title: Option<String>,
    pub artist: Option<String>,
    pub year: Option<u32>,
    /// The pictures of the tag in the order in which the tag holds them,
    /// each as the bytes of an image file.
    pub pictures: Vec<Vec<u8>>,
}

/// The mathematical value of a [`Tag`].
pub struct TagView {
    pub title: Option<Seq<char>>,
    pub artist: Option<Seq<char>>,
    pub year: Option<u32>,
    pub pictures: Seq<Seq<u8>>,
}

impl View for Tag {
    type V = TagView;

    open spec fn view(&self) -> TagView {
        TagView {
            title: text_view(self.title),
            artist: text_view(self.artist),
            year: self.year,
            pictures: self.pictures@.map_values(|p: Vec<u8>| p@),
        }
    }
}

/// What was read from one file that could be read.
#[derive(Debug, PartialEq, Eq)]
pub struct TagRead {
    /// The file's primary tag, if it has one.
    pub tag: Option<Tag>,
    /// Length of the audio in whole seconds.
    pub duration: u64,
}

/// The mathematical value of a [`TagRead`].
pub struct TagReadView {
    pub tag: Option<TagView>,
    pub duration: u64,
}

impl View for TagRead {
    type V = TagReadView;

    open spec fn view(&self) -> TagReadView {
        TagReadView {
            tag: match self.tag {
                Some(tag) => Some(tag@),
                None => None,
            },
            duration: self.duration,
        }
    }
}

/// The value of the outcome of reading a file: `None` where it failed.
pub open spec fn read_view(read: Option<TagRead>) -> Option<TagReadView> {
    match read {
        Some(r) => Some(r@),
        None => None,
    }
}

/// One entry of a directory, with what was read from it.
#[derive(Debug, PartialEq, Eq)]
pub struct ScanEntry {
    pub path: String,
    /// What was read from the entry, `None` where reading failed.
    pub read: Option<TagRead>,
}

/// The mathematical value of a [`ScanEntry`].
pub struct ScanEntryView {
    pub path: Seq<char>,
    pub read: Option<TagReadView>,
}

impl View for ScanEntry {
    type V = ScanEntryView;

    open spec fn view(&self) -> ScanEntryView {
        ScanEntryView { path: self.path@, read: read_view(self.read) }
    }
}

/// The values of the entries of a list, in order.
pub open spec fn entries_view(entries: Seq<ScanEntry>) -> Seq<ScanEntryView> {
    entries.map_values(|e: ScanEntry| e@)
}

/// The front picture of a tag: the first that it holds.
pub open spec fn front_picture(tag: TagView) -> Option<Seq<u8>> {
    if tag.pictures.len() > 0 {
        Some(tag.pictures[0])
    } else {
        None
    }
}

/// The cover of a file: the front picture of its primary tag. A file that
/// could not be read, or has no primary tag, has none.
pub open spec fn cover_of(read: Option<TagReadView>) -> Option<Seq<u8>> {
    match read {
        Some(TagReadView { tag: Some(tag), .. }) => front_picture(tag),
        _ => None,
    }
}

/// The record of a file. Title, artist and year are those of its primary
/// tag, the cover is that tag's front picture, and the duration is that of
/// the audio. A file that could not be read, or has no primary tag, gets the
/// blank record: without a tag not even the duration is filled in.
pub open spec fn properties_of(read: Option<TagReadView>) -> PropertiesView {
    match read {
        Some(TagReadView { tag: Some(tag), duration }) => PropertiesView {
            title: tag.title,
            artist: tag.artist,
            year: tag.year,
            duration: Some(duration),
            cover: front_picture(tag),
        },
        _ => PropertiesView::blank(),
    }
}

} // verus!
