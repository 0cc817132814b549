//! Metadata normalization: pure resolution of title, artists, genres, year,
//! duration and numbering from a raw entity, with all precedence and
//! tie-break rules stated as specifications.

use vstd::prelude::*;

use crate::model::{
    Actor, ActorKind, ActorRole, FacetedTags, Index, NumberOf, PlainTag, Title, TitleKind,
};

verus! {

/// Duration in whole seconds used when no duration is known; resolved
/// durations are also clamped to be no larger than this value.
pub const DEFAULT_DURATION: u32 = 0;

// ---------------------------------------------------------------------------
// Artists
// ---------------------------------------------------------------------------

/// An individually credited artist entry.
pub open spec fn is_individual_artist(a: Actor) -> bool {
    a.role == ActorRole::Artist && a.kind == ActorKind::Individual
}

/// A summary artist entry (one name standing for all credited persons).
pub open spec fn is_summary_artist(a: Actor) -> bool {
    a.role == ActorRole::Artist && a.kind == ActorKind::Summary
}

/// Names of the individually credited artists, in source order.
pub open spec fn individual_artists(actors: Seq<Actor>) -> Seq<Seq<char>>
    decreases actors.len(),
{
    if actors.len() == 0 {
        Seq::empty()
    } else {
        let prefix = individual_artists(actors.drop_last());
        if is_individual_artist(actors.last()) {
            prefix.push(actors.last().name@)
        } else {
            prefix
        }
    }
}

/// Name of the summary artist, if any. At most one such entry is expected;
/// should several occur, the last one wins, as in a left-to-right scan.
pub open spec fn summary_artist(actors: Seq<Actor>) -> Option<Seq<char>>
    decreases actors.len(),
{
    if actors.len() == 0 {
        None
    } else if is_summary_artist(actors.last()) {
        Some(actors.last().name@)
    } else {
        summary_artist(actors.drop_last())
    }
}

/// The resolved artist list: the individual artists whenever at least one is
/// present (the summary entry, if any, is discarded), otherwise the summary
/// artist alone, otherwise empty. Sorting entries never contribute.
pub open spec fn resolved_artists(actors: Seq<Actor>) -> Seq<Seq<char>> {
    if individual_artists(actors).len() > 0 {
        individual_artists(actors)
    } else {
        match summary_artist(actors) {
            Some(name) => seq![name],
            None => Seq::empty(),
        }
    }
}

/// Resolves the artist list of a track from its actor entries.
pub fn collect_artists(actors: &Vec<Actor>) -> (r: Vec<String>)
    ensures
        r.deep_view() == resolved_artists(actors@),
{
    let mut individuals: Vec<String> = Vec::new();
    let mut summary: Option<String> = None;
    let mut i: usize = 0;
    while i < actors.len()
        invariant
            0 <= i <= actors@.len(),
            individuals.deep_view() == individual_artists(actors@.take(i as int)),
            summary.deep_view() == summary_artist(actors@.take(i as int)),
        decreases actors@.len() - i,
    {
        let a = &actors[i];
        proof {
            assert(actors@.take(i + 1).drop_last() =~= actors@.take(i as int));
            assert(actors@.take(i + 1).last() == actors@[i as int]);
        }
        if a.role == ActorRole::Artist {
            match a.kind {
                ActorKind::Summary => {
                    summary = Some(a.name.clone());
                },
                ActorKind::Individual => {
                    let ghost prev = individuals.deep_view();
                    individuals.push(a.name.clone());
                    proof {
                        assert(individuals.deep_view() =~= prev.push(a.name@));
                    }
                },
                ActorKind::Sorting => {},
            }
        }
        i += 1;
    }
    proof {
        assert(actors@.take(actors@.len() as int) =~= actors@);
    }
    if individuals.len() > 0 {
        individuals
    } else {
        match summary {
            Some(name) => {
                let mut single: Vec<String> = Vec::new();
                single.push(name);
                proof {
                    assert(single.deep_view() =~= resolved_artists(actors@));
                }
                single
            },
            None => Vec::new(),
        }
    }
}

/// The individual artist list is empty exactly when no actor entry is an
/// individually credited artist.
pub proof fn lemma_individual_artists_empty(actors: Seq<Actor>)
    ensures
        individual_artists(actors).len() == 0 <==> (forall|i: int|
            0 <= i < actors.len() ==> !is_individual_artist(#[trigger] actors[i])),
    decreases actors.len(),
{
    if actors.len() > 0 {
        let prefix = actors.drop_last();
        lemma_individual_artists_empty(prefix);
        assert(actors.last() == actors[actors.len() - 1]);
        if individual_artists(actors).len() == 0 {
            assert(individual_artists(prefix).len() == 0);
            assert forall|i: int| 0 <= i < actors.len() implies !is_individual_artist(
                #[trigger] actors[i],
            ) by {
                if i < actors.len() - 1 {
                    assert(prefix[i] == actors[i]);
                }
            }
        } else {
            if forall|i: int| 0 <= i < actors.len() ==> !is_individual_artist(
                #[trigger] actors[i],
            ) {
                assert forall|i: int| 0 <= i < prefix.len() implies !is_individual_artist(
                    #[trigger] prefix[i],
                ) by {
                    assert(prefix[i] == actors[i]);
                }
                assert(individual_artists(prefix).len() == 0);
                assert(false);
            }
        }
    }
}

/// Whenever at least one individually credited artist entry is present, the
/// resolved artist list is exactly the individual entries in source order,
/// whatever summary entry may also be present.
pub proof fn lemma_artists_prefer_individual(actors: Seq<Actor>)
    requires
        exists|i: int| 0 <= i < actors.len() && is_individual_artist(#[trigger] actors[i]),
    ensures
        resolved_artists(actors) == individual_artists(actors),
{
    lemma_individual_artists_empty(actors);
}

/// With a single summary artist entry, the summary scan yields its name.
proof fn lemma_summary_artist_unique(actors: Seq<Actor>, j: int)
    requires
        0 <= j < actors.len(),
        is_summary_artist(actors[j]),
        forall|i: int|
            0 <= i < actors.len() && i != j ==> !is_summary_artist(#[trigger] actors[i]),
    ensures
        summary_artist(actors) == Some(actors[j].name@),
    decreases actors.len(),
{
    assert(actors.last() == actors[actors.len() - 1]);
    if j < actors.len() - 1 {
        lemma_summary_artist_unique(actors.drop_last(), j);
    }
}

/// With no individually credited artist entry and exactly one summary artist
/// entry, the resolved artist list is that summary name alone.
pub proof fn lemma_artists_summary_fallback(actors: Seq<Actor>, j: int)
    requires
        forall|i: int| 0 <= i < actors.len() ==> !is_individual_artist(#[trigger] actors[i]),
        0 <= j < actors.len(),
        is_summary_artist(actors[j]),
        forall|i: int|
            0 <= i < actors.len() && i != j ==> !is_summary_artist(#[trigger] actors[i]),
    ensures
        resolved_artists(actors) == seq![actors[j].name@],
{
    lemma_individual_artists_empty(actors);
    lemma_summary_artist_unique(actors, j);
}

// ---------------------------------------------------------------------------
// Titles
// ---------------------------------------------------------------------------

/// Name of the first title entry tagged `Main`, if any.
pub open spec fn first_main_title(titles: Seq<Title>) -> Option<Seq<char>>
    decreases titles.len(),
{
    if titles.len() == 0 {
        None
    } else if titles[0].kind == TitleKind::Main {
        Some(titles[0].name@)
    } else {
        first_main_title(titles.skip(1))
    }
}

/// The resolved album title: the first `Main` title, or empty when none
/// exists (an album title is not required).
pub open spec fn album_title(titles: Seq<Title>) -> Seq<char> {
    match first_main_title(titles) {
        Some(name) => name,
        None => Seq::empty(),
    }
}

/// Scans title entries for the first one tagged `Main`.
pub fn find_main_title(titles: &Vec<Title>) -> (r: Option<String>)
    ensures
        r.deep_view() == first_main_title(titles@),
{
    let mut i: usize = 0;
    proof {
        assert(titles@.skip(0) =~= titles@);
    }
    while i < titles.len()
        invariant
            0 <= i <= titles@.len(),
            first_main_title(titles@) == first_main_title(titles@.skip(i as int)),
        decreases titles@.len() - i,
    {
        proof {
            assert(titles@.skip(i as int)[0] == titles@[i as int]);
        }
        if titles[i].kind == TitleKind::Main {
            return Some(titles[i].name.clone());
        }
        proof {
            assert(titles@.skip(i as int).skip(1) =~= titles@.skip(i + 1));
        }
        i += 1;
    }
    None
}

/// Resolves the album title from the album's title entries.
pub fn resolve_album_title(titles: &Vec<Title>) -> (r: String)
    ensures
        r@ == album_title(titles@),
{
    match find_main_title(titles) {
        Some(name) => name,
        None => String::new(),
    }
}

/// The title scan yields nothing exactly when no entry is tagged `Main`; the
/// album title is then empty, and track-title resolution must fall back to
/// the caller-supplied producer.
pub proof fn lemma_no_main_title(titles: Seq<Title>)
    ensures
        first_main_title(titles) is None <==> (forall|i: int|
            0 <= i < titles.len() ==> (#[trigger] titles[i]).kind != TitleKind::Main),
        first_main_title(titles) is None ==> album_title(titles) == Seq::<char>::empty(),
    decreases titles.len(),
{
    if titles.len() > 0 {
        lemma_no_main_title(titles.skip(1));
        assert forall|i: int|
            0 <= i < titles.len() && (forall|k: int|
                0 <= k < titles.skip(1).len() ==> (#[trigger] titles.skip(1)[k]).kind
                    != TitleKind::Main) && titles[0].kind != TitleKind::Main implies (
        #[trigger] titles[i]).kind != TitleKind::Main by {
            if i > 0 {
                assert(titles.skip(1)[i - 1] == titles[i]);
            }
        }
    }
}

// ---------------------------------------------------------------------------
// Genres
// ---------------------------------------------------------------------------

/// The reserved facet id under which genre tags are filed.
pub open spec fn genre_facet_id() -> Seq<char> {
    "genre"@
}

/// The non-absent labels of a facet's tags, in source order.
pub open spec fn present_labels(tags: Seq<PlainTag>) -> Seq<Seq<char>>
    decreases tags.len(),
{
    if tags.len() == 0 {
        Seq::empty()
    } else {
        let prefix = present_labels(tags.drop_last());
        match tags.last().label {
            Some(label) => prefix.push(label@),
            None => prefix,
        }
    }
}

/// Labels of every facet whose id equals the reserved genre id, concatenated
/// in source order; facets with other ids contribute nothing.
pub open spec fn genre_labels(facets: Seq<FacetedTags>) -> Seq<Seq<char>>
    decreases facets.len(),
{
    if facets.len() == 0 {
        Seq::empty()
    } else {
        let prefix = genre_labels(facets.drop_last());
        if facets.last().facet_id@ == genre_facet_id() {
            prefix + present_labels(facets.last().tags@)
        } else {
            prefix
        }
    }
}

/// Collects the non-absent labels of one facet.
fn collect_present_labels(tags: &Vec<PlainTag>, out: &mut Vec<String>)
    ensures
        final(out).deep_view() == old(out).deep_view() + present_labels(tags@),
{
    let mut i: usize = 0;
    while i < tags.len()
        invariant
            0 <= i <= tags@.len(),
            out.deep_view() == old(out).deep_view() + present_labels(tags@.take(i as int)),
        decreases tags@.len() - i,
    {
        proof {
            assert(tags@.take(i + 1).drop_last() =~= tags@.take(i as int));
            assert(tags@.take(i + 1).last() == tags@[i as int]);
        }
        match &tags[i].label {
            Some(label) => {
                let ghost prev = out.deep_view();
                out.push(label.clone());
                proof {
                    assert(out.deep_view() =~= prev.push(label@));
                }
            },
            None => {},
        }
        i += 1;
    }
    proof {
        assert(tags@.take(tags@.len() as int) =~= tags@);
    }
}

/// Resolves the genre list of a track from its tag facets.
pub fn collect_genres(facets: &Vec<FacetedTags>) -> (r: Vec<String>)
    ensures
        r.deep_view() == genre_labels(facets@),
{
    let genre_id: String = "genre".to_owned();
    let mut out: Vec<String> = Vec::new();
    let mut i: usize = 0;
    while i < facets.len()
        invariant
            genre_id@ == genre_facet_id(),
            0 <= i <= facets@.len(),
            out.deep_view() == genre_labels(facets@.take(i as int)),
        decreases facets@.len() - i,
    {
        proof {
            assert(facets@.take(i + 1).drop_last() =~= facets@.take(i as int));
            assert(facets@.take(i + 1).last() == facets@[i as int]);
        }
        if facets[i].facet_id == genre_id {
            collect_present_labels(&facets[i].tags, &mut out);
        }
        i += 1;
    }
    proof {
        assert(facets@.take(facets@.len() as int) =~= facets@);
    }
    out
}

// ---------------------------------------------------------------------------
// Year
// ---------------------------------------------------------------------------

/// The year component usable in the output: non-negative years as they are,
/// anything else treated as absent.
pub open spec fn year_of(year: i16) -> Option<u32> {
    if year >= 0 {
        Some(year as u32)
    } else {
        None
    }
}

/// The usable year of an optional date field.
pub open spec fn opt_year(date: Option<i16>) -> Option<u32> {
    match date {
        Some(year) => year_of(year),
        None => None,
    }
}

/// Minimum of two optional years; an absent operand never wins.
pub open spec fn min_opt_year(a: Option<u32>, b: Option<u32>) -> Option<u32> {
    match a {
        None => b,
        Some(x) => match b {
            None => Some(x),
            Some(y) => Some(if x <= y { x } else { y }),
        },
    }
}

/// The resolved year: the minimum of the years present among the recorded,
/// released and originally-released date fields, absent when none is.
pub open spec fn resolved_year(
    recorded: Option<i16>,
    released: Option<i16>,
    released_orig: Option<i16>,
) -> Option<u32> {
    min_opt_year(min_opt_year(opt_year(recorded), opt_year(released)), opt_year(released_orig))
}

/// The usable year component of one date field.
pub fn year_component(year: i16) -> (r: Option<u32>)
    ensures
        r == year_of(year),
{
    if year >= 0 {
        Some(year as u32)
    } else {
        None
    }
}

fn min_year(a: Option<u32>, b: Option<u32>) -> (r: Option<u32>)
    ensures
        r == min_opt_year(a, b),
{
    match a {
        None => b,
        Some(x) => match b {
            None => Some(x),
            Some(y) => Some(if x <= y { x } else { y }),
        },
    }
}

fn opt_year_component(date: Option<i16>) -> (r: Option<u32>)
    ensures
        r == opt_year(date),
{
    match date {
        Some(year) => year_component(year),
        None => None,
    }
}

/// Resolves the output year as the minimum of the years present among the
/// three optional date fields, or absent when all are absent.
pub fn resolve_year(
    recorded: Option<i16>,
    released: Option<i16>,
    released_orig: Option<i16>,
) -> (r: Option<u32>)
    ensures
        r == resolved_year(recorded, released, released_orig),
{
    min_year(
        min_year(opt_year_component(recorded), opt_year_component(released)),
        opt_year_component(released_orig),
    )
}

/// The resolved year is absent exactly when none of the three date fields
/// has a usable year component; otherwise it is one of the present
/// components and no larger than any of them.
pub proof fn lemma_resolved_year_minimum(
    recorded: Option<i16>,
    released: Option<i16>,
    released_orig: Option<i16>,
)
    ensures
        resolved_year(recorded, released, released_orig) is None <==> (opt_year(recorded) is None
            && opt_year(released) is None && opt_year(released_orig) is None),
        resolved_year(recorded, released, released_orig) matches Some(y) ==> {
            &&& (opt_year(recorded) == Some(y) || opt_year(released) == Some(y) || opt_year(
                released_orig,
            ) == Some(y))
            &&& (opt_year(recorded) matches Some(a) ==> y <= a)
            &&& (opt_year(released) matches Some(b) ==> y <= b)
            &&& (opt_year(released_orig) matches Some(c) ==> y <= c)
        },
{
}

// ---------------------------------------------------------------------------
// Duration
// ---------------------------------------------------------------------------

/// Milliseconds rounded to the nearest whole second, halves away from zero.
pub open spec fn rounded_secs(millis: u64) -> int {
    if millis % 1000 >= 500 {
        millis as int / 1000 + 1
    } else {
        millis as int / 1000
    }
}

/// The resolved duration in whole seconds: the rounded duration, clamped to
/// be no larger than [`DEFAULT_DURATION`]; the default when absent.
pub open spec fn resolved_duration(duration_millis: Option<u64>) -> int {
    match duration_millis {
        Some(millis) => {
            if rounded_secs(millis) <= DEFAULT_DURATION {
                rounded_secs(millis)
            } else {
                DEFAULT_DURATION as int
            }
        },
        None => DEFAULT_DURATION as int,
    }
}

/// Rounds a duration in whole milliseconds to the nearest whole second.
pub fn round_millis_to_secs(millis: u64) -> (r: u64)
    ensures
        r == rounded_secs(millis),
{
    let secs = millis / 1000;
    if millis % 1000 >= 500 {
        secs + 1
    } else {
        secs
    }
}

/// Resolves the duration in whole seconds from the optional duration in
/// milliseconds, applying the rounding and the clamp against the default.
pub fn resolve_duration(duration_millis: Option<u64>) -> (r: u32)
    ensures
        r as int == resolved_duration(duration_millis),
{
    match duration_millis {
        Some(millis) => {
            let secs = round_millis_to_secs(millis);
            if secs <= DEFAULT_DURATION as u64 {
                secs as u32
            } else {
                DEFAULT_DURATION
            }
        },
        None => DEFAULT_DURATION,
    }
}

/// The resolved duration never exceeds the default it is clamped against;
/// with the default of zero, every present duration therefore collapses to
/// zero whole seconds, however large its rounded value.
pub proof fn lemma_duration_clamped(duration_millis: Option<u64>)
    ensures
        resolved_duration(duration_millis) <= DEFAULT_DURATION,
        duration_millis matches Some(millis) ==> resolved_duration(duration_millis) == if rounded_secs(
            millis,
        ) <= DEFAULT_DURATION {
            rounded_secs(millis)
        } else {
            DEFAULT_DURATION as int
        },
{
}

// ---------------------------------------------------------------------------
// Numbering
// ---------------------------------------------------------------------------

/// The index pair copied field-for-field into the output pair.
pub open spec fn number_of_spec(index: Index) -> NumberOf {
    NumberOf {
        no: match index.number {
            Some(n) => Some(n as u32),
            None => None,
        },
        of: match index.total {
            Some(n) => Some(n as u32),
            None => None,
        },
    }
}

/// Copies an index pair into an optional-number / optional-total pair.
pub fn number_of(index: Index) -> (r: NumberOf)
    ensures
        r == number_of_spec(index),
{
    NumberOf {
        no: match index.number {
            Some(n) => Some(n as u32),
            None => None,
        },
        of: match index.total {
            Some(n) => Some(n as u32),
            None => None,
        },
    }
}

} // verus!
