//! Data model: the raw, richly tagged entities handed in by the storage
//! layer, and the flattened records produced for downstream consumption.
//!
//! Raw entities carry only the plain values that the normalization rules
//! read: kinds and roles as closed sums, dates as their year component,
//! an audio duration in whole milliseconds.

use vstd::prelude::*;

verus! {

/// Kind of a title entry. Only `Main` titles are picked up by resolution.
#[derive(Clone, Copy, Debug, PartialEq, Eq, Structural)]
pub enum TitleKind {
    Main,
    Other,
}

/// One title entry of a track or album.
#[derive(Clone, Debug)]
pub struct Title {
    pub kind: TitleKind,
    pub name: String,
}

/// Role of an actor entry. Only `Artist` entries feed the artist list.
#[derive(Clone, Copy, Debug, PartialEq, Eq, Structural)]
pub enum ActorRole {
    Artist,
    Other,
}

/// Kind of an actor entry.
#[derive(Clone, Copy, Debug, PartialEq, Eq, Structural)]
pub enum ActorKind {
    /// A single name summarizing all credited persons.
    Summary,
    /// One individually credited person.
    Individual,
    /// A name variant used only for sorting; ignored by resolution.
    Sorting,
}

/// One actor entry of a track.
#[derive(Clone, Debug)]
pub struct Actor {
    pub role: ActorRole,
    pub kind: ActorKind,
    pub name: String,
}

/// One generic tag inside a facet; its label may be absent.
#[derive(Clone, Debug)]
pub struct PlainTag {
    pub label: Option<String>,
}

/// A named bucket of generic tags (e.g. the genre facet).
#[derive(Clone, Debug)]
pub struct FacetedTags {
    pub facet_id: String,
    pub tags: Vec<PlainTag>,
}

/// The nested album entity of a track; only its titles are read.
#[derive(Clone, Debug)]
pub struct Album {
    pub titles: Vec<Title>,
}

/// Audio metadata of a track's media source: the duration in whole
/// milliseconds, absent when unknown.
///
/// Fractional milliseconds are truncated by the caller; the truncated part
/// can never change the duration rounded to whole seconds.
#[derive(Clone, Debug)]
pub struct AudioContent {
    pub duration_millis: Option<u64>,
}

/// Content metadata variants of a media source.
#[derive(Clone, Debug)]
pub enum ContentMetadata {
    Audio(AudioContent),
}

/// An optional (number, total) index pair, e.g. track 3 of 12.
#[derive(Clone, Copy, Debug)]
pub struct Index {
    pub number: Option<u16>,
    pub total: Option<u16>,
}

/// The track-in-set and disc-in-set index pairs of a track.
#[derive(Clone, Copy, Debug)]
pub struct Indexes {
    pub track: Index,
    pub disc: Index,
}

/// A raw track entity as supplied by the storage layer, reduced to the
/// plain values that normalization reads. Dates carry only their year.
#[derive(Clone, Debug)]
pub struct RawTrack {
    pub uid: String,
    pub content_url: Option<String>,
    pub titles: Vec<Title>,
    pub actors: Vec<Actor>,
    pub album: Album,
    pub facets: Vec<FacetedTags>,
    pub recorded_year: Option<i16>,
    pub released_year: Option<i16>,
    pub released_orig_year: Option<i16>,
    pub metadata: ContentMetadata,
    pub indexes: Indexes,
}

/// A raw playlist entity, reduced to what the importer reads.
#[derive(Clone, Debug)]
pub struct RawPlaylist {
    pub uid: String,
    pub title: String,
}

/// Payload of one playlist entry.
#[derive(Clone, Debug)]
pub enum PlaylistItem {
    /// A reference to a track by its unique identifier.
    Track(String),
    /// Anything else (e.g. a separator); skipped by the importer.
    Separator,
}

/// One entry of a playlist.
#[derive(Clone, Debug)]
pub struct PlaylistEntry {
    pub item: PlaylistItem,
}

/// An optional-number / optional-total pair of the flattened record.
#[derive(Clone, Copy, Debug, PartialEq, Eq, Structural)]
pub struct NumberOf {
    pub no: Option<u32>,
    pub of: Option<u32>,
}

/// The flattened track record produced for downstream consumption.
#[derive(Clone, Debug, PartialEq, Eq)]
pub struct Track {
    pub id: String,
    pub title: String,
    pub artists: Vec<String>,
    pub album: String,
    pub genres: Vec<String>,
    pub year: Option<u32>,
    /// Duration in whole seconds.
    pub duration: u32,
    pub track: NumberOf,
    pub disk: NumberOf,
    /// Resolved local file path of the content.
    pub path: String,
}

/// The flattened playlist record produced for downstream consumption.
#[derive(Clone, Debug, PartialEq, Eq)]
pub struct Playlist {
    pub id: String,
    pub name: String,
    /// Track membership; populated by a separate step, empty on import.
    pub tracks: Vec<String>,
    pub import_path: Option<String>,
}

} // verus!
