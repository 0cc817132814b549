//! Entity import: building complete flattened track and playlist records
//! from raw entities, with a caller-supplied fallback for a missing track
//! title.

use vstd::prelude::*;

use crate::locator::resolve_file_url;
use crate::model::{ContentMetadata, Playlist, PlaylistEntry, PlaylistItem, RawPlaylist, RawTrack, Track};
use crate::normalize::{
    album_title, collect_artists, collect_genres, find_main_title, first_main_title, genre_labels,
    number_of, number_of_spec, resolve_album_title, resolve_duration, resolve_year,
    resolved_artists, resolved_duration, resolved_year,
};

verus! {

/// Why a track import failed. Every failure concerns a required field; all
/// other fields degrade to empty, absent or default values instead.
#[derive(Clone, Debug, PartialEq, Eq)]
pub enum ImportError {
    /// The raw entity carries no content locator at all.
    MissingContentUrl,
    /// The content locator could not be converted to a local file path.
    UnsupportedContentUrl,
    /// No title entry is tagged `Main` and the caller-supplied fallback
    /// failed; carries the fallback's message.
    TitleFallbackFailed(String),
}

/// The duration carried by the content metadata, in whole milliseconds.
pub open spec fn duration_millis_of(metadata: ContentMetadata) -> Option<u64> {
    match metadata {
        ContentMetadata::Audio(audio) => audio.duration_millis,
    }
}

/// All fields of a flattened track record except the title and the path are
/// determined by the raw entity through the normalization rules.
pub open spec fn normalized_track_fields(raw: RawTrack, t: Track) -> bool {
    &&& t.id@ == raw.uid@
    &&& t.artists.deep_view() == resolved_artists(raw.actors@)
    &&& t.album@ == album_title(raw.album.titles@)
    &&& t.genres.deep_view() == genre_labels(raw.facets@)
    &&& t.year == resolved_year(raw.recorded_year, raw.released_year, raw.released_orig_year)
    &&& t.duration as int == resolved_duration(duration_millis_of(raw.metadata))
    &&& t.track == number_of_spec(raw.indexes.track)
    &&& t.disk == number_of_spec(raw.indexes.disc)
}

/// Builds the flattened track record once the content locator has been
/// resolved to a local path.
///
/// The title is the first `Main` title entry; only when none exists is the
/// caller-supplied fallback invoked, at most once, and its failure is the
/// only failure of this function.
pub fn import_track_with_path<F: FnOnce() -> Result<String, String>>(
    raw: &RawTrack,
    path: String,
    missing_title: F,
) -> (r: Result<Track, ImportError>)
    requires
        call_requires(missing_title, ()),
    ensures
        first_main_title(raw.titles@) matches Some(title) ==> (r matches Ok(t)
            && normalized_track_fields(*raw, t) && t.title@ == title && t.path@ == path@),
        first_main_title(raw.titles@) is None ==> match r {
            Ok(t) => normalized_track_fields(*raw, t) && t.path@ == path@ && call_ensures(
                missing_title,
                (),
                Ok(t.title),
            ),
            Err(e) => e matches ImportError::TitleFallbackFailed(m) && call_ensures(
                missing_title,
                (),
                Err(m),
            ),
        },
{
    let title = match find_main_title(&raw.titles) {
        Some(name) => name,
        None => match missing_title() {
            Ok(name) => name,
            Err(message) => {
                return Err(ImportError::TitleFallbackFailed(message));
            },
        },
    };
    let artists = collect_artists(&raw.actors);
    let album = resolve_album_title(&raw.album.titles);
    let genres = collect_genres(&raw.facets);
    let year = resolve_year(raw.recorded_year, raw.released_year, raw.released_orig_year);
    let duration = match &raw.metadata {
        ContentMetadata::Audio(audio) => resolve_duration(audio.duration_millis),
    };
    Ok(
        Track {
            id: raw.uid.clone(),
            title,
            artists,
            album,
            genres,
            year,
            duration,
            track: number_of(raw.indexes.track),
            disk: number_of(raw.indexes.disc),
            path,
        },
    )
}

/// Imports one raw track entity into a flattened track record.
///
/// Fails when the entity carries no content locator, when the locator does
/// not resolve to a local file path (which the `url` crate decides), and
/// when no title entry is tagged `Main` and the caller-supplied fallback
/// fails; every other field degrades gracefully. On success all fields but
/// the path are determined by the normalization rules; the path is whatever
/// the locator resolved to.
pub fn import_track_from_entity<F: FnOnce() -> Result<String, String>>(
    entity: RawTrack,
    missing_title: F,
) -> (r: Result<Track, ImportError>)
    requires
        call_requires(missing_title, ()),
    ensures
        entity.content_url is None <==> r == Err::<Track, ImportError>(
            ImportError::MissingContentUrl,
        ),
        r == Err::<Track, ImportError>(ImportError::UnsupportedContentUrl) ==> entity.content_url
            is Some,
        r matches Err(ImportError::TitleFallbackFailed(m)) ==> first_main_title(entity.titles@)
            is None && call_ensures(missing_title, (), Err(m)),
        r matches Ok(t) ==> {
            &&& normalized_track_fields(entity, t)
            &&& match first_main_title(entity.titles@) {
                Some(title) => t.title@ == title,
                None => call_ensures(missing_title, (), Ok(t.title)),
            }
        },
{
    let path = match &entity.content_url {
        None => {
            return Err(ImportError::MissingContentUrl);
        },
        Some(url) => match resolve_file_url(url.as_str()) {
            Some(path) => path,
            None => {
                return Err(ImportError::UnsupportedContentUrl);
            },
        },
    };
    import_track_with_path(&entity, path, missing_title)
}

/// Builds the flattened playlist record: identifier and name taken over, the
/// track membership left empty for a separate population step.
pub fn import_playlist_from_entity(entity: RawPlaylist) -> (r: Result<Playlist, ImportError>)
    ensures
        r matches Ok(p) && p.id@ == entity.uid@ && p.name@ == entity.title@ && p.tracks@.len() == 0
            && p.import_path is None,
{
    Ok(Playlist { id: entity.uid, name: entity.title, tracks: Vec::new(), import_path: None })
}

/// Identifiers of the tracks referenced by the entries whose payload is a
/// track, in source order; other entry variants contribute nothing.
pub open spec fn track_uids(entries: Seq<PlaylistEntry>) -> Seq<Seq<char>>
    decreases entries.len(),
{
    if entries.len() == 0 {
        Seq::empty()
    } else {
        let prefix = track_uids(entries.drop_last());
        match entries.last().item {
            PlaylistItem::Track(uid) => prefix.push(uid@),
            PlaylistItem::Separator => prefix,
        }
    }
}

/// Maps playlist entries to the identifiers of the tracks they reference,
/// silently skipping entry variants that are not tracks.
pub fn import_playlist_track_entries(entries: &Vec<PlaylistEntry>) -> (r: Vec<String>)
    ensures
        r.deep_view() == track_uids(entries@),
{
    let mut out: Vec<String> = Vec::new();
    let mut i: usize = 0;
    while i < entries.len()
        invariant
            0 <= i <= entries@.len(),
            out.deep_view() == track_uids(entries@.take(i as int)),
        decreases entries@.len() - i,
    {
        proof {
            assert(entries@.take(i + 1).drop_last() =~= entries@.take(i as int));
            assert(entries@.take(i + 1).last() == entries@[i as int]);
        }
        match &entries[i].item {
            PlaylistItem::Track(uid) => {
                let ghost prev = out.deep_view();
                out.push(uid.clone());
                proof {
                    assert(out.deep_view() =~= prev.push(uid@));
                }
            },
            PlaylistItem::Separator => {},
        }
        i += 1;
    }
    proof {
        assert(entries@.take(entries@.len() as int) =~= entries@);
    }
    out
}

} // verus!
