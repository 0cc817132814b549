use track_import::import::{
    import_playlist_from_entity, import_playlist_track_entries, import_track_from_entity,
    import_track_with_path, ImportError,
};
use track_import::model::{
    Actor, ActorKind, ActorRole, Album, AudioContent, ContentMetadata, FacetedTags, Index,
    Indexes, PlainTag, PlaylistEntry, PlaylistItem, RawPlaylist, RawTrack, Title, TitleKind,
};

fn raw_track() -> RawTrack {
    RawTrack {
        uid: "uid-1234".to_owned(),
        content_url: Some("file:///music/a.mp3".to_owned()),
        titles: vec![
            Title { kind: TitleKind::Other, name: "Working title".to_owned() },
            Title { kind: TitleKind::Main, name: "The Song".to_owned() },
        ],
        actors: vec![
            Actor { role: ActorRole::Artist, kind: ActorKind::Summary, name: "Various".to_owned() },
            Actor { role: ActorRole::Artist, kind: ActorKind::Individual, name: "Alice".to_owned() },
            Actor { role: ActorRole::Artist, kind: ActorKind::Individual, name: "Bob".to_owned() },
        ],
        album: Album {
            titles: vec![Title { kind: TitleKind::Main, name: "The Album".to_owned() }],
        },
        facets: vec![
            FacetedTags {
                facet_id: "mood".to_owned(),
                tags: vec![PlainTag { label: Some("calm".to_owned()) }],
            },
            FacetedTags {
                facet_id: "genre".to_owned(),
                tags: vec![
                    PlainTag { label: Some("house".to_owned()) },
                    PlainTag { label: Some("techno".to_owned()) },
                ],
            },
        ],
        recorded_year: Some(2001),
        released_year: Some(1999),
        released_orig_year: None,
        metadata: ContentMetadata::Audio(AudioContent { duration_millis: Some(2500) }),
        indexes: Indexes {
            track: Index { number: Some(3), total: Some(12) },
            disc: Index { number: Some(1), total: None },
        },
    }
}

fn no_fallback() -> Result<String, String> {
    Err("no fallback".to_owned())
}

#[test]
fn full_track_import() {
    let t = import_track_from_entity(raw_track(), no_fallback).unwrap();
    assert_eq!(t.id, "uid-1234");
    assert_eq!(t.title, "The Song");
    assert_eq!(t.artists, vec!["Alice".to_owned(), "Bob".to_owned()]);
    assert_eq!(t.album, "The Album");
    assert_eq!(t.genres, vec!["house".to_owned(), "techno".to_owned()]);
    assert_eq!(t.year, Some(1999));
    assert_eq!(t.duration, 0);
    assert_eq!(t.track.no, Some(3));
    assert_eq!(t.track.of, Some(12));
    assert_eq!(t.disk.no, Some(1));
    assert_eq!(t.disk.of, None);
    assert_eq!(t.path, "/music/a.mp3");
}

#[test]
fn missing_content_url_fails() {
    let mut raw = raw_track();
    raw.content_url = None;
    assert_eq!(import_track_from_entity(raw, no_fallback), Err(ImportError::MissingContentUrl));
}

#[test]
fn unsupported_content_url_fails() {
    let mut raw = raw_track();
    raw.content_url = Some("https://example.net/a.mp3".to_owned());
    assert_eq!(
        import_track_from_entity(raw, no_fallback),
        Err(ImportError::UnsupportedContentUrl)
    );
    let mut raw = raw_track();
    raw.content_url = Some("not a url".to_owned());
    assert_eq!(
        import_track_from_entity(raw, no_fallback),
        Err(ImportError::UnsupportedContentUrl)
    );
}

#[test]
fn fallback_supplies_missing_title() {
    let mut raw = raw_track();
    raw.titles = vec![Title { kind: TitleKind::Other, name: "Working title".to_owned() }];
    let t = import_track_from_entity(raw, || Ok("Untitled".to_owned())).unwrap();
    assert_eq!(t.title, "Untitled");
}

#[test]
fn fallback_failure_fails_import() {
    let mut raw = raw_track();
    raw.titles = Vec::new();
    assert_eq!(
        import_track_from_entity(raw, no_fallback),
        Err(ImportError::TitleFallbackFailed("no fallback".to_owned()))
    );
}

#[test]
fn fallback_not_consulted_when_main_title_present() {
    // A fallback that fails does not disturb an import whose entity carries
    // a Main title.
    let t = import_track_from_entity(raw_track(), no_fallback).unwrap();
    assert_eq!(t.title, "The Song");
}

#[test]
fn import_with_path_uses_given_path() {
    let raw = raw_track();
    let t = import_track_with_path(&raw, "/elsewhere/b.flac".to_owned(), no_fallback).unwrap();
    assert_eq!(t.path, "/elsewhere/b.flac");
    assert_eq!(t.title, "The Song");
}

#[test]
fn graceful_degradation_of_optional_fields() {
    let raw = RawTrack {
        uid: "uid-0".to_owned(),
        content_url: Some("file:///m/x.mp3".to_owned()),
        titles: vec![Title { kind: TitleKind::Main, name: "X".to_owned() }],
        actors: Vec::new(),
        album: Album { titles: Vec::new() },
        facets: Vec::new(),
        recorded_year: None,
        released_year: None,
        released_orig_year: None,
        metadata: ContentMetadata::Audio(AudioContent { duration_millis: None }),
        indexes: Indexes {
            track: Index { number: None, total: None },
            disc: Index { number: None, total: None },
        },
    };
    let t = import_track_from_entity(raw, no_fallback).unwrap();
    assert_eq!(t.artists, Vec::<String>::new());
    assert_eq!(t.album, "");
    assert_eq!(t.genres, Vec::<String>::new());
    assert_eq!(t.year, None);
    assert_eq!(t.duration, 0);
    assert_eq!(t.track.no, None);
    assert_eq!(t.disk.of, None);
}

#[test]
fn playlist_import_populates_identifier_and_name() {
    let p = import_playlist_from_entity(RawPlaylist {
        uid: "uid-pl".to_owned(),
        title: "Morning".to_owned(),
    })
    .unwrap();
    assert_eq!(p.id, "uid-pl");
    assert_eq!(p.name, "Morning");
    assert_eq!(p.tracks, Vec::<String>::new());
    assert_eq!(p.import_path, None);
}

#[test]
fn playlist_entries_keep_track_references_only() {
    let entries = vec![
        PlaylistEntry { item: PlaylistItem::Track("uid-a".to_owned()) },
        PlaylistEntry { item: PlaylistItem::Separator },
        PlaylistEntry { item: PlaylistItem::Track("uid-b".to_owned()) },
    ];
    assert_eq!(
        import_playlist_track_entries(&entries),
        vec!["uid-a".to_owned(), "uid-b".to_owned()]
    );
    assert_eq!(import_playlist_track_entries(&Vec::new()), Vec::<String>::new());
}
