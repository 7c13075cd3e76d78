//! The catalog slice of the record store that the sync engine rewrites:
//! metadata rows, people, genres and the association edges between them.
//! Lookups are get-or-create; a refresh overwrites the snapshot and
//! rewrites the association edges wholesale, so no stale edge from a prior
//! snapshot survives.

use vstd::prelude::*;
use vstd::pervasive::VecAdditionalExecFns;
use crate::import::EntityLot;
use crate::progress::opt_str_eq;
use crate::sync::{spec_metadata_diff, metadata_diff, ChangeNotice, MediaStateChanged};
use crate::types::{MediaDetails, MediaLot, PartialMetadataPerson, PartialMetadataWithoutId};

verus! {

/// One canonical metadata row. `last_updated_on` is the instant of the
/// last successful refresh; a non-forced refresh asks the provider about
/// changes since then before fetching.
#[derive(Clone, Debug)]
pub struct MetadataRow {
    pub id: u64,
    pub lot: MediaLot,
    pub source: String,
    pub identifier: String,
    pub is_partial: bool,
    pub last_updated_on: i64,
    pub details: MediaDetails,
}

/// One person row.
#[derive(Clone, Debug)]
pub struct PersonRow {
    pub id: u64,
    pub identifier: String,
    pub source: String,
    pub source_specifics: Option<String>,
    pub name: String,
    pub is_partial: bool,
}

/// One genre row.
#[derive(Clone, Debug)]
pub struct GenreRow {
    pub id: u64,
    pub name: String,
}

/// One metadata-to-person edge.
#[derive(Clone, Debug)]
pub struct PersonEdge {
    pub metadata_id: u64,
    pub person_id: u64,
    pub role: String,
    pub character: Option<String>,
    pub index: usize,
}

/// One metadata-to-genre edge.
#[derive(Clone, Copy, Debug, PartialEq, Eq, Structural)]
pub struct GenreEdge {
    pub metadata_id: u64,
    pub genre_id: u64,
}

/// One typed metadata-to-metadata suggestion edge.
#[derive(Clone, Copy, Debug, PartialEq, Eq, Structural)]
pub struct SuggestionEdge {
    pub from_metadata_id: u64,
    pub to_metadata_id: u64,
}

/// One fire-and-forget group-association job.
#[derive(Clone, Debug)]
pub struct AssociateGroupJob {
    pub lot: MediaLot,
    pub source: String,
    pub group_identifier: String,
}

/// The catalog rows and edges the sync engine reads and rewrites.
#[derive(Clone, Debug)]
pub struct CatalogStore {
    pub next_id: u64,
    pub metadata: Vec<MetadataRow>,
    pub people: Vec<PersonRow>,
    pub genres: Vec<GenreRow>,
    pub person_edges: Vec<PersonEdge>,
    pub genre_edges: Vec<GenreEdge>,
    pub suggestion_edges: Vec<SuggestionEdge>,
}

/// What a person lookup matches on: source and identifier, and the source
/// specifics only when the caller supplies them.
pub open spec fn person_matches(
    row: PersonRow,
    source: Seq<char>,
    identifier: Seq<char>,
    specifics: Option<String>,
) -> bool {
    &&& row.source@ == source
    &&& row.identifier@ == identifier
    &&& (specifics is Some ==> opt_str_eq(row.source_specifics, specifics))
}

/// Index of the first matching person row, or -1.
pub open spec fn find_person_idx(
    people: Seq<PersonRow>,
    source: Seq<char>,
    identifier: Seq<char>,
    specifics: Option<String>,
) -> int
    decreases people.len(),
{
    if people.len() == 0 {
        -1
    } else if person_matches(people[0], source, identifier, specifics) {
        0
    } else {
        let r = find_person_idx(people.drop_first(), source, identifier, specifics);
        if r == -1 {
            -1
        } else {
            r + 1
        }
    }
}

proof fn lemma_find_person_prefix(
    people: Seq<PersonRow>,
    source: Seq<char>,
    identifier: Seq<char>,
    specifics: Option<String>,
    i: int,
)
    requires
        0 <= i <= people.len(),
        forall|k: int| 0 <= k < i ==> !person_matches(#[trigger] people[k], source, identifier, specifics),
    ensures
        i == people.len() ==> find_person_idx(people, source, identifier, specifics) == -1,
        i < people.len() && person_matches(people[i], source, identifier, specifics)
            ==> find_person_idx(people, source, identifier, specifics) == i,
    decreases i,
{
    if i > 0 {
        lemma_find_person_prefix(people.drop_first(), source, identifier, specifics, i - 1);
    }
}

fn clone_opt_string(a: &Option<String>) -> (r: Option<String>)
    ensures
        opt_str_eq(r, *a),
        r is Some <==> *a is Some,
{
    match a {
        Some(s) => Some(s.clone()),
        None => None,
    }
}

fn opt_string_eq(a: &Option<String>, b: &Option<String>) -> (r: bool)
    ensures
        r == opt_str_eq(*a, *b),
{
    match (a, b) {
        (None, None) => true,
        (Some(x), Some(y)) => x.eq(y),
        _ => false,
    }
}

/// Idempotent person get-or-create: the first row matching source,
/// identifier and (when given) source specifics is reused; otherwise a
/// partial row is created under a fresh id. Only the people table and the
/// id counter ever change, and existing rows are never touched.
pub fn commit_person(
    store: &mut CatalogStore,
    identifier: &String,
    source: &String,
    source_specifics: &Option<String>,
    name: &String,
) -> (id: u64)
    requires
        old(store).next_id < u64::MAX,
    ensures
        final(store).metadata == old(store).metadata,
        final(store).genres == old(store).genres,
        final(store).person_edges == old(store).person_edges,
        final(store).genre_edges == old(store).genre_edges,
        final(store).suggestion_edges == old(store).suggestion_edges,
        ({
            let idx = find_person_idx(
                old(store).people@,
                source@,
                identifier@,
                *source_specifics,
            );
            if idx >= 0 {
                &&& final(store).people@ == old(store).people@
                &&& final(store).next_id == old(store).next_id
                &&& id == old(store).people@[idx].id
            } else {
                &&& final(store).people@.len() == old(store).people@.len() + 1
                &&& final(store).people@.subrange(0, old(store).people@.len() as int) == old(
                    store,
                ).people@
                &&& final(store).next_id == old(store).next_id + 1
                &&& id == old(store).next_id
                &&& ({
                    let row = final(store).people@.last();
                    &&& row.id == id
                    &&& row.identifier@ == identifier@
                    &&& row.source@ == source@
                    &&& opt_str_eq(row.source_specifics, *source_specifics)
                    &&& row.name@ == name@
                    &&& row.is_partial
                })
            }
        }),
{
    let mut i: usize = 0;
    while i < store.people.len()
        invariant
            0 <= i <= store.people@.len(),
            forall|k: int|
                0 <= k < i ==> !person_matches(
                    #[trigger] store.people@[k],
                    source@,
                    identifier@,
                    *source_specifics,
                ),
        decreases store.people@.len() - i,
    {
        let row = &store.people[i];
        let specifics_ok = match source_specifics {
            None => true,
            Some(_) => opt_string_eq(&row.source_specifics, source_specifics),
        };
        if row.source.eq(source) && row.identifier.eq(identifier) && specifics_ok {
            proof {
                lemma_find_person_prefix(
                    store.people@,
                    source@,
                    identifier@,
                    *source_specifics,
                    i as int,
                );
            }
            return store.people[i].id;
        }
        i += 1;
    }
    proof {
        lemma_find_person_prefix(
            store.people@,
            source@,
            identifier@,
            *source_specifics,
            store.people@.len() as int,
        );
    }
    let id = store.next_id;
    store.next_id = store.next_id + 1;
    let row = PersonRow {
        id,
        identifier: identifier.clone(),
        source: source.clone(),
        source_specifics: clone_opt_string(source_specifics),
        name: name.clone(),
        is_partial: true,
    };
    let ghost before = store.people@;
    store.people.push(row);
    proof {
        assert(store.people@.subrange(0, before.len() as int) =~= before);
    }
    id
}

/// Index of the first genre row with the given name, or -1.
pub open spec fn find_genre_idx(genres: Seq<GenreRow>, name: Seq<char>) -> int
    decreases genres.len(),
{
    if genres.len() == 0 {
        -1
    } else if genres[0].name@ == name {
        0
    } else {
        let r = find_genre_idx(genres.drop_first(), name);
        if r == -1 {
            -1
        } else {
            r + 1
        }
    }
}

proof fn lemma_find_genre_prefix(genres: Seq<GenreRow>, name: Seq<char>, i: int)
    requires
        0 <= i <= genres.len(),
        forall|k: int| 0 <= k < i ==> (#[trigger] genres[k]).name@ != name,
    ensures
        i == genres.len() ==> find_genre_idx(genres, name) == -1,
        i < genres.len() && genres[i].name@ == name ==> find_genre_idx(genres, name) == i,
    decreases i,
{
    if i > 0 {
        lemma_find_genre_prefix(genres.drop_first(), name, i - 1);
    }
}

/// Idempotent genre get-or-create by name.
pub fn commit_genre(store: &mut CatalogStore, name: &String) -> (id: u64)
    requires
        old(store).next_id < u64::MAX,
    ensures
        final(store).metadata == old(store).metadata,
        final(store).people == old(store).people,
        final(store).person_edges == old(store).person_edges,
        final(store).genre_edges == old(store).genre_edges,
        final(store).suggestion_edges == old(store).suggestion_edges,
        ({
            let idx = find_genre_idx(old(store).genres@, name@);
            if idx >= 0 {
                &&& final(store).genres@ == old(store).genres@
                &&& final(store).next_id == old(store).next_id
                &&& id == old(store).genres@[idx].id
            } else {
                &&& final(store).genres@.len() == old(store).genres@.len() + 1
                &&& final(store).genres@.subrange(0, old(store).genres@.len() as int) == old(
                    store,
                ).genres@
                &&& final(store).next_id == old(store).next_id + 1
                &&& id == old(store).next_id
                &&& final(store).genres@.last().id == id
                &&& final(store).genres@.last().name@ == name@
            }
        }),
{
    let mut i: usize = 0;
    while i < store.genres.len()
        invariant
            0 <= i <= store.genres@.len(),
            forall|k: int| 0 <= k < i ==> (#[trigger] store.genres@[k]).name@ != name@,
        decreases store.genres@.len() - i,
    {
        if store.genres[i].name.eq(name) {
            proof {
                lemma_find_genre_prefix(store.genres@, name@, i as int);
            }
            return store.genres[i].id;
        }
        i += 1;
    }
    proof {
        lemma_find_genre_prefix(store.genres@, name@, store.genres@.len() as int);
    }
    let id = store.next_id;
    store.next_id = store.next_id + 1;
    let ghost before = store.genres@;
    store.genres.push(GenreRow { id, name: name.clone() });
    proof {
        assert(store.genres@.subrange(0, before.len() as int) =~= before);
    }
    id
}

/// What a metadata lookup matches on.
pub open spec fn metadata_matches(
    row: MetadataRow,
    lot: MediaLot,
    source: Seq<char>,
    identifier: Seq<char>,
) -> bool {
    row.lot == lot && row.source@ == source && row.identifier@ == identifier
}

/// Index of the first metadata row with the given key, or -1.
pub open spec fn find_metadata_idx(
    rows: Seq<MetadataRow>,
    lot: MediaLot,
    source: Seq<char>,
    identifier: Seq<char>,
) -> int
    decreases rows.len(),
{
    if rows.len() == 0 {
        -1
    } else if metadata_matches(rows[0], lot, source, identifier) {
        0
    } else {
        let r = find_metadata_idx(rows.drop_first(), lot, source, identifier);
        if r == -1 {
            -1
        } else {
            r + 1
        }
    }
}

proof fn lemma_find_metadata_prefix(
    rows: Seq<MetadataRow>,
    lot: MediaLot,
    source: Seq<char>,
    identifier: Seq<char>,
    i: int,
)
    requires
        0 <= i <= rows.len(),
        forall|k: int| 0 <= k < i ==> !metadata_matches(#[trigger] rows[k], lot, source, identifier),
    ensures
        i == rows.len() ==> find_metadata_idx(rows, lot, source, identifier) == -1,
        i < rows.len() && metadata_matches(rows[i], lot, source, identifier)
            ==> find_metadata_idx(rows, lot, source, identifier) == i,
    decreases i,
{
    if i > 0 {
        lemma_find_metadata_prefix(rows.drop_first(), lot, source, identifier, i - 1);
    }
}

/// Look a metadata row up by its (kind, source, identifier) key: the
/// idempotent half of a commit. A hit returns the row as-is; a refresh
/// happens only when the caller forces one.
pub fn commit_metadata_lookup(
    store: &CatalogStore,
    lot: MediaLot,
    source: &String,
    identifier: &String,
) -> (r: Option<u64>)
    ensures
        ({
            let idx = find_metadata_idx(store.metadata@, lot, source@, identifier@);
            match r {
                Option::Some(id) => idx >= 0 && id == store.metadata@[idx].id,
                Option::None => idx == -1,
            }
        }),
{
    let mut i: usize = 0;
    while i < store.metadata.len()
        invariant
            0 <= i <= store.metadata@.len(),
            forall|k: int|
                0 <= k < i ==> !metadata_matches(
                    #[trigger] store.metadata@[k],
                    lot,
                    source@,
                    identifier@,
                ),
        decreases store.metadata@.len() - i,
    {
        let row = &store.metadata[i];
        let lot_matches = match (row.lot, lot) {
            (MediaLot::AudioBook, MediaLot::AudioBook) => true,
            (MediaLot::Anime, MediaLot::Anime) => true,
            (MediaLot::Book, MediaLot::Book) => true,
            (MediaLot::Podcast, MediaLot::Podcast) => true,
            (MediaLot::Manga, MediaLot::Manga) => true,
            (MediaLot::Movie, MediaLot::Movie) => true,
            (MediaLot::Show, MediaLot::Show) => true,
            (MediaLot::VideoGame, MediaLot::VideoGame) => true,
            (MediaLot::VisualNovel, MediaLot::VisualNovel) => true,
            _ => false,
        };
        if lot_matches && row.source.eq(source) && row.identifier.eq(identifier) {
            proof {
                lemma_find_metadata_prefix(store.metadata@, lot, source@, identifier@, i as int);
            }
            return Some(row.id);
        }
        i += 1;
    }
    proof {
        lemma_find_metadata_prefix(
            store.metadata@,
            lot,
            source@,
            identifier@,
            store.metadata@.len() as int,
        );
    }
    None
}

/// Get or create the stub metadata row a suggestion points at.
pub fn create_partial_metadata(
    store: &mut CatalogStore,
    data: &PartialMetadataWithoutId,
) -> (id: u64)
    requires
        old(store).next_id < u64::MAX,
    ensures
        final(store).people == old(store).people,
        final(store).genres == old(store).genres,
        final(store).person_edges == old(store).person_edges,
        final(store).genre_edges == old(store).genre_edges,
        final(store).suggestion_edges == old(store).suggestion_edges,
        final(store).metadata@.len() >= old(store).metadata@.len(),
        final(store).metadata@.subrange(0, old(store).metadata@.len() as int) == old(
            store,
        ).metadata@,
        final(store).next_id >= old(store).next_id,
        final(store).next_id <= old(store).next_id + 1,
        ({
            let idx = find_metadata_idx(old(store).metadata@, data.lot, data.source@, data.identifier@);
            if idx >= 0 {
                &&& final(store).metadata@ == old(store).metadata@
                &&& id == old(store).metadata@[idx].id
            } else {
                &&& final(store).metadata@.len() == old(store).metadata@.len() + 1
                &&& final(store).next_id == old(store).next_id + 1
                &&& id == old(store).next_id
                &&& ({
                    let row = final(store).metadata@.last();
                    &&& row.id == id
                    &&& row.lot == data.lot
                    &&& row.source@ == data.source@
                    &&& row.identifier@ == data.identifier@
                    &&& row.is_partial
                    &&& row.details.title@ == data.title@
                })
            }
        }),
{
    match commit_metadata_lookup(store, data.lot, &data.source, &data.identifier) {
        Some(id) => id,
        None => {
            let id = store.next_id;
            store.next_id = store.next_id + 1;
            let row = MetadataRow {
                id,
                lot: data.lot,
                source: data.source.clone(),
                identifier: data.identifier.clone(),
                is_partial: true,
                last_updated_on: 0,
                details: MediaDetails {
                    title: data.title.clone(),
                    description: None,
                    production_status: None,
                    publish_year: None,
                    publish_date: None,
                    show_specifics: None,
                    podcast_specifics: None,
                    anime_specifics: None,
                    manga_specifics: None,
                    movie_specifics: None,
                    book_specifics: None,
                    audio_book_specifics: None,
                    visual_novel_specifics: None,
                    video_game_specifics: None,
                    genres: Vec::new(),
                    people: Vec::new(),
                    suggestions: Vec::new(),
                    group_identifiers: Vec::new(),
                },
            };
            let ghost before = store.metadata@;
            store.metadata.push(row);
            proof {
                assert(store.metadata@.subrange(0, before.len() as int) =~= before);
            }
            id
        },
    }
}

/// The person edges that survive a rewrite of one entity: every edge of
/// any other entity, in order.
pub open spec fn retained_person_edges(s: Seq<PersonEdge>, m: u64) -> Seq<PersonEdge>
    decreases s.len(),
{
    if s.len() == 0 {
        Seq::empty()
    } else {
        retained_person_edges(s.drop_last(), m) + (if s.last().metadata_id != m {
            seq![s.last()]
        } else {
            Seq::empty()
        })
    }
}

/// The genre edges that survive a rewrite of one entity.
pub open spec fn retained_genre_edges(s: Seq<GenreEdge>, m: u64) -> Seq<GenreEdge>
    decreases s.len(),
{
    if s.len() == 0 {
        Seq::empty()
    } else {
        retained_genre_edges(s.drop_last(), m) + (if s.last().metadata_id != m {
            seq![s.last()]
        } else {
            Seq::empty()
        })
    }
}

/// The suggestion edges that survive a rewrite of one entity.
pub open spec fn retained_suggestion_edges(s: Seq<SuggestionEdge>, m: u64) -> Seq<SuggestionEdge>
    decreases s.len(),
{
    if s.len() == 0 {
        Seq::empty()
    } else {
        retained_suggestion_edges(s.drop_last(), m) + (if s.last().from_metadata_id != m {
            seq![s.last()]
        } else {
            Seq::empty()
        })
    }
}

fn retain_person_edges(edges: Vec<PersonEdge>, m: u64) -> (r: Vec<PersonEdge>)
    ensures
        r@ == retained_person_edges(edges@, m),
        forall|k: int| 0 <= k < r@.len() ==> (#[trigger] r@[k]).metadata_id != m,
{
    let mut r: Vec<PersonEdge> = Vec::new();
    let mut rest = edges;
    let ghost full = rest@;
    let full_len = rest.len();
    let mut i: usize = 0;
    proof {
        assert(full.len() == full_len as int);
        assert(retained_person_edges(full.take(0), m) =~= Seq::<PersonEdge>::empty());
        assert(rest@ =~= full.skip(0));
    }
    while rest.len() > 0
        invariant
            0 <= i <= full.len(),
            i + rest@.len() == full.len(),
            full.len() <= usize::MAX,
            rest@ == full.skip(i as int),
            r@ == retained_person_edges(full.take(i as int), m),
            forall|k: int| 0 <= k < r@.len() ==> (#[trigger] r@[k]).metadata_id != m,
        decreases rest@.len(),
    {
        proof {
            assert(full.take(i + 1).drop_last() =~= full.take(i as int));
            assert(full.take(i + 1).last() == full[i as int]);
            assert(full.skip(i as int)[0] == full[i as int]);
        }
        let e = rest.remove(0);
        proof {
            assert(e == full[i as int]);
            assert(rest@ =~= full.skip(i + 1));
        }
        if e.metadata_id != m {
            r.push(e);
        }
        proof {
            assert(r@ =~= retained_person_edges(full.take(i + 1), m));
        }
        i += 1;
    }
    proof {
        assert(full.take(full.len() as int) =~= full);
    }
    r
}

fn retain_genre_edges(edges: Vec<GenreEdge>, m: u64) -> (r: Vec<GenreEdge>)
    ensures
        r@ == retained_genre_edges(edges@, m),
{
    let mut r: Vec<GenreEdge> = Vec::new();
    let mut i: usize = 0;
    proof {
        assert(retained_genre_edges(edges@.take(0), m) =~= Seq::<GenreEdge>::empty());
    }
    while i < edges.len()
        invariant
            0 <= i <= edges@.len(),
            r@ == retained_genre_edges(edges@.take(i as int), m),
        decreases edges@.len() - i,
    {
        proof {
            assert(edges@.take(i + 1).drop_last() =~= edges@.take(i as int));
            assert(edges@.take(i + 1).last() == edges@[i as int]);
        }
        let e = edges[i];
        if e.metadata_id != m {
            r.push(e);
        }
        proof {
            assert(r@ =~= retained_genre_edges(edges@.take(i + 1), m));
        }
        i += 1;
    }
    proof {
        assert(edges@.take(edges@.len() as int) =~= edges@);
    }
    r
}

fn retain_suggestion_edges(edges: Vec<SuggestionEdge>, m: u64) -> (r: Vec<SuggestionEdge>)
    ensures
        r@ == retained_suggestion_edges(edges@, m),
{
    let mut r: Vec<SuggestionEdge> = Vec::new();
    let mut i: usize = 0;
    proof {
        assert(retained_suggestion_edges(edges@.take(0), m) =~= Seq::<SuggestionEdge>::empty());
    }
    while i < edges.len()
        invariant
            0 <= i <= edges@.len(),
            r@ == retained_suggestion_edges(edges@.take(i as int), m),
        decreases edges@.len() - i,
    {
        proof {
            assert(edges@.take(i + 1).drop_last() =~= edges@.take(i as int));
            assert(edges@.take(i + 1).last() == edges@[i as int]);
        }
        let e = edges[i];
        if e.from_metadata_id != m {
            r.push(e);
        }
        proof {
            assert(r@ =~= retained_suggestion_edges(edges@.take(i + 1), m));
        }
        i += 1;
    }
    proof {
        assert(edges@.take(edges@.len() as int) =~= edges@);
    }
    r
}

/// A person edge of the rewritten entity is backed by a person row of the
/// store that matches the snapshot's person, and carries its role,
/// character and ordinal index.
pub open spec fn person_edge_ok(
    edge: PersonEdge,
    m: u64,
    person: PartialMetadataPerson,
    k: int,
    people_rows: Seq<PersonRow>,
) -> bool {
    &&& edge.metadata_id == m
    &&& edge.index == k
    &&& edge.role@ == person.role@
    &&& opt_str_eq(edge.character, person.character)
    &&& exists|ri: int|
        0 <= ri < people_rows.len() && (#[trigger] people_rows[ri]).id == edge.person_id
            && person_matches(people_rows[ri], person.source@, person.identifier@, person.source_specifics)
}

/// A genre edge of the rewritten entity is backed by a genre row carrying
/// the snapshot's genre name.
pub open spec fn genre_edge_ok(
    edge: GenreEdge,
    m: u64,
    name: String,
    genre_rows: Seq<GenreRow>,
) -> bool {
    &&& edge.metadata_id == m
    &&& exists|ri: int|
        0 <= ri < genre_rows.len() && (#[trigger] genre_rows[ri]).id == edge.genre_id
            && genre_rows[ri].name@ == name@
}

/// A suggestion edge of the rewritten entity points at a metadata row
/// carrying the suggested entity's key.
pub open spec fn suggestion_edge_ok(
    edge: SuggestionEdge,
    m: u64,
    data: PartialMetadataWithoutId,
    rows: Seq<MetadataRow>,
) -> bool {
    &&& edge.from_metadata_id == m
    &&& exists|ri: int|
        0 <= ri < rows.len() && (#[trigger] rows[ri]).id == edge.to_metadata_id && metadata_matches(
            rows[ri],
            data.lot,
            data.source@,
            data.identifier@,
        )
}

/// Atomically rewrite one entity's associations from its latest snapshot:
/// delete every person, genre and suggestion edge of the entity, then
/// re-insert one edge per snapshot entry, looking people and genres up or
/// creating them, and creating stub rows for unknown suggestion targets.
/// Group identifiers become fire-and-forget jobs instead. No edge of any
/// other entity is touched, and no stale edge of this one survives.
#[verifier::rlimit(100)]
pub fn change_metadata_associations(
    store: &mut CatalogStore,
    metadata_id: u64,
    lot: MediaLot,
    source: &String,
    genres: &Vec<String>,
    suggestions: &Vec<PartialMetadataWithoutId>,
    groups: &Vec<String>,
    people: &Vec<PartialMetadataPerson>,
) -> (jobs: Vec<AssociateGroupJob>)
    requires
        old(store).next_id + people@.len() + genres@.len() + suggestions@.len() < u64::MAX,
    ensures
        final(store).metadata@.len() >= old(store).metadata@.len(),
        final(store).metadata@.subrange(0, old(store).metadata@.len() as int) == old(
            store,
        ).metadata@,
        final(store).people@.subrange(0, old(store).people@.len() as int) == old(store).people@,
        final(store).genres@.subrange(0, old(store).genres@.len() as int) == old(store).genres@,
        ({
            let retained = retained_person_edges(old(store).person_edges@, metadata_id);
            let pe = final(store).person_edges@;
            &&& pe.len() == retained.len() + people@.len()
            &&& pe.subrange(0, retained.len() as int) == retained
            &&& forall|k: int|
                0 <= k < people@.len() ==> person_edge_ok(
                    #[trigger] pe[retained.len() + k],
                    metadata_id,
                    people@[k],
                    k,
                    final(store).people@,
                )
        }),
        ({
            let retained = retained_genre_edges(old(store).genre_edges@, metadata_id);
            let ge = final(store).genre_edges@;
            &&& ge.len() == retained.len() + genres@.len()
            &&& ge.subrange(0, retained.len() as int) == retained
            &&& forall|k: int|
                0 <= k < genres@.len() ==> genre_edge_ok(
                    #[trigger] ge[retained.len() + k],
                    metadata_id,
                    genres@[k],
                    final(store).genres@,
                )
        }),
        ({
            let retained = retained_suggestion_edges(old(store).suggestion_edges@, metadata_id);
            let se = final(store).suggestion_edges@;
            &&& se.len() == retained.len() + suggestions@.len()
            &&& se.subrange(0, retained.len() as int) == retained
            &&& forall|k: int|
                0 <= k < suggestions@.len() ==> suggestion_edge_ok(
                    #[trigger] se[retained.len() + k],
                    metadata_id,
                    suggestions@[k],
                    final(store).metadata@,
                )
        }),
        jobs@.len() == groups@.len(),
        forall|k: int|
            0 <= k < groups@.len() ==> {
                let j = #[trigger] jobs@[k];
                j.lot == lot && j.source@ == source@ && j.group_identifier@ == groups@[k]@
            },
{
    let ghost store0 = *store;
    let mut person_edges: Vec<PersonEdge> = Vec::new();
    core::mem::swap(&mut person_edges, &mut store.person_edges);
    let retained_pe = retain_person_edges(person_edges, metadata_id);
    store.person_edges = retained_pe;
    let mut genre_edges: Vec<GenreEdge> = Vec::new();
    core::mem::swap(&mut genre_edges, &mut store.genre_edges);
    store.genre_edges = retain_genre_edges(genre_edges, metadata_id);
    let mut suggestion_edges: Vec<SuggestionEdge> = Vec::new();
    core::mem::swap(&mut suggestion_edges, &mut store.suggestion_edges);
    store.suggestion_edges = retain_suggestion_edges(suggestion_edges, metadata_id);

    let ghost retained_p = retained_person_edges(store0.person_edges@, metadata_id);
    let ghost retained_g = retained_genre_edges(store0.genre_edges@, metadata_id);
    let ghost retained_s = retained_suggestion_edges(store0.suggestion_edges@, metadata_id);

    let pe_base = store.person_edges.len();
    let mut k: usize = 0;
    while k < people.len()
        invariant
            0 <= k <= people@.len(),
            store.next_id + people@.len() - k + genres@.len() + suggestions@.len() < u64::MAX,
            store.metadata@.len() >= store0.metadata@.len(),
            store.metadata@.subrange(0, store0.metadata@.len() as int) == store0.metadata@,
            store.people@.len() >= store0.people@.len(),
            store.people@.subrange(0, store0.people@.len() as int) == store0.people@,
            store.genres@.len() >= store0.genres@.len(),
            store.genres@.subrange(0, store0.genres@.len() as int) == store0.genres@,
            store.genre_edges@ == retained_g,
            store.suggestion_edges@ == retained_s,
            pe_base == retained_p.len(),
            store.person_edges@.len() == retained_p.len() + k,
            store.person_edges@.subrange(0, retained_p.len() as int) == retained_p,
            forall|j: int|
                0 <= j < k ==> person_edge_ok(
                    #[trigger] store.person_edges@[retained_p.len() + j],
                    metadata_id,
                    people@[j],
                    j,
                    store.people@,
                ),
        decreases people@.len() - k,
    {
        let person = &people[k];
        let ghost people_before = store.people@;
        let ghost pe_before = store.person_edges@;
        let pid = commit_person(
            store,
            &person.identifier,
            &person.source,
            &person.source_specifics,
            &person.name,
        );
        proof {
            assert(store.people@.subrange(0, people_before.len() as int) =~= people_before);
            assert forall|idx: int|
                0 <= idx < store0.people@.len() implies store.people@[idx] == store0.people@[idx] by {
                assert(store.people@.subrange(0, people_before.len() as int)[idx]
                    == people_before[idx]);
                assert(people_before.subrange(0, store0.people@.len() as int)[idx]
                    == store0.people@[idx]);
            }
            assert(store.people@.subrange(0, store0.people@.len() as int) =~= store0.people@);
            assert(exists|ri: int|
                0 <= ri < store.people@.len() && (#[trigger] store.people@[ri]).id == pid
                    && person_matches(
                    store.people@[ri],
                    person.source@,
                    person.identifier@,
                    person.source_specifics,
                )) by {
                let idx = find_person_idx(
                    people_before,
                    person.source@,
                    person.identifier@,
                    person.source_specifics,
                );
                if idx >= 0 {
                    lemma_find_person_props(
                        people_before,
                        person.source@,
                        person.identifier@,
                        person.source_specifics,
                    );
                    assert(store.people@[idx] == people_before[idx]);
                } else {
                    assert(store.people@.last().id == pid);
                }
            }
        }
        let edge = PersonEdge {
            metadata_id,
            person_id: pid,
            role: person.role.clone(),
            character: clone_opt_string(&person.character),
            index: k,
        };
        store.person_edges.push(edge);
        proof {
            assert(store.person_edges@.subrange(0, retained_p.len() as int) =~= retained_p);
            assert forall|j: int| 0 <= j < k + 1 implies person_edge_ok(
                #[trigger] store.person_edges@[retained_p.len() + j],
                metadata_id,
                people@[j],
                j,
                store.people@,
            ) by {
                if j < k {
                    assert(store.person_edges@[retained_p.len() + j] == pe_before[retained_p.len()
                        + j]);
                    assert(person_edge_ok(
                        pe_before[retained_p.len() + j],
                        metadata_id,
                        people@[j],
                        j,
                        people_before,
                    ));
                    let ri = choose|ri: int|
                        0 <= ri < people_before.len() && (#[trigger] people_before[ri]).id
                            == pe_before[retained_p.len() + j].person_id && person_matches(
                            people_before[ri],
                            people@[j].source@,
                            people@[j].identifier@,
                            people@[j].source_specifics,
                        );
                    assert(store.people@[ri] == people_before[ri]);
                }
            }
        }
        k += 1;
    }

    let ge_base = store.genre_edges.len();
    let mut k: usize = 0;
    let ghost people_after = store.people@;
    let ghost pe_after = store.person_edges@;
    while k < genres.len()
        invariant
            0 <= k <= genres@.len(),
            store.next_id + genres@.len() - k + suggestions@.len() < u64::MAX,
            store.metadata@.len() >= store0.metadata@.len(),
            store.metadata@.subrange(0, store0.metadata@.len() as int) == store0.metadata@,
            store.people@ == people_after,
            store.person_edges@ == pe_after,
            store.genres@.len() >= store0.genres@.len(),
            store.genres@.subrange(0, store0.genres@.len() as int) == store0.genres@,
            store.suggestion_edges@ == retained_s,
            ge_base == retained_g.len(),
            store.genre_edges@.len() == retained_g.len() + k,
            store.genre_edges@.subrange(0, retained_g.len() as int) == retained_g,
            forall|j: int|
                0 <= j < k ==> genre_edge_ok(
                    #[trigger] store.genre_edges@[retained_g.len() + j],
                    metadata_id,
                    genres@[j],
                    store.genres@,
                ),
        decreases genres@.len() - k,
    {
        let ghost genres_before = store.genres@;
        let ghost ge_before = store.genre_edges@;
        let gid = commit_genre(store, &genres[k]);
        proof {
            assert(store.genres@.subrange(0, genres_before.len() as int) =~= genres_before);
            assert forall|idx: int|
                0 <= idx < store0.genres@.len() implies store.genres@[idx] == store0.genres@[idx] by {
                assert(store.genres@.subrange(0, genres_before.len() as int)[idx]
                    == genres_before[idx]);
                assert(genres_before.subrange(0, store0.genres@.len() as int)[idx]
                    == store0.genres@[idx]);
            }
            assert(store.genres@.subrange(0, store0.genres@.len() as int) =~= store0.genres@);
            assert(exists|ri: int|
                0 <= ri < store.genres@.len() && (#[trigger] store.genres@[ri]).id == gid
                    && store.genres@[ri].name@ == genres@[k as int]@) by {
                let idx = find_genre_idx(genres_before, genres@[k as int]@);
                if idx >= 0 {
                    lemma_find_genre_props(genres_before, genres@[k as int]@);
                    assert(store.genres@[idx] == genres_before[idx]);
                } else {
                    assert(store.genres@.last().id == gid);
                }
            }
        }
        store.genre_edges.push(GenreEdge { metadata_id, genre_id: gid });
        proof {
            assert(store.genre_edges@.subrange(0, retained_g.len() as int) =~= retained_g);
            assert forall|j: int| 0 <= j < k + 1 implies genre_edge_ok(
                #[trigger] store.genre_edges@[retained_g.len() + j],
                metadata_id,
                genres@[j],
                store.genres@,
            ) by {
                if j < k {
                    assert(store.genre_edges@[retained_g.len() + j] == ge_before[retained_g.len()
                        + j]);
                    assert(genre_edge_ok(
                        ge_before[retained_g.len() + j],
                        metadata_id,
                        genres@[j],
                        genres_before,
                    ));
                    let ri = choose|ri: int|
                        0 <= ri < genres_before.len() && (#[trigger] genres_before[ri]).id
                            == ge_before[retained_g.len() + j].genre_id && genres_before[ri].name@
                            == genres@[j]@;
                    assert(store.genres@[ri] == genres_before[ri]);
                }
            }
        }
        k += 1;
    }

    let se_base = store.suggestion_edges.len();
    let mut k: usize = 0;
    let ghost genres_after = store.genres@;
    let ghost ge_after = store.genre_edges@;
    while k < suggestions.len()
        invariant
            0 <= k <= suggestions@.len(),
            store.next_id + suggestions@.len() - k < u64::MAX,
            store.metadata@.len() >= store0.metadata@.len(),
            store.metadata@.subrange(0, store0.metadata@.len() as int) == store0.metadata@,
            store.people@ == people_after,
            store.person_edges@ == pe_after,
            store.genres@ == genres_after,
            store.genre_edges@ == ge_after,
            se_base == retained_s.len(),
            store.suggestion_edges@.len() == retained_s.len() + k,
            store.suggestion_edges@.subrange(0, retained_s.len() as int) == retained_s,
            forall|j: int|
                0 <= j < k ==> suggestion_edge_ok(
                    #[trigger] store.suggestion_edges@[retained_s.len() + j],
                    metadata_id,
                    suggestions@[j],
                    store.metadata@,
                ),
        decreases suggestions@.len() - k,
    {
        let data = &suggestions[k];
        let ghost rows_before = store.metadata@;
        let ghost se_before = store.suggestion_edges@;
        let sid = create_partial_metadata(store, data);
        proof {
            assert(store.metadata@.subrange(0, rows_before.len() as int) =~= rows_before);
            assert forall|idx: int|
                0 <= idx < store0.metadata@.len() implies store.metadata@[idx] == store0.metadata@[idx] by {
                assert(store.metadata@.subrange(0, rows_before.len() as int)[idx]
                    == rows_before[idx]);
                assert(rows_before.subrange(0, store0.metadata@.len() as int)[idx]
                    == store0.metadata@[idx]);
            }
            assert(store.metadata@.subrange(0, store0.metadata@.len() as int) =~= store0.metadata@);
            assert(exists|ri: int|
                0 <= ri < store.metadata@.len() && (#[trigger] store.metadata@[ri]).id == sid
                    && metadata_matches(
                    store.metadata@[ri],
                    data.lot,
                    data.source@,
                    data.identifier@,
                )) by {
                let idx = find_metadata_idx(rows_before, data.lot, data.source@, data.identifier@);
                if idx >= 0 {
                    lemma_find_metadata_props(rows_before, data.lot, data.source@, data.identifier@);
                    assert(store.metadata@[idx] == rows_before[idx]);
                } else {
                    assert(store.metadata@.last().id == sid);
                }
            }
        }
        store.suggestion_edges.push(
            SuggestionEdge { from_metadata_id: metadata_id, to_metadata_id: sid },
        );
        proof {
            assert(store.suggestion_edges@.subrange(0, retained_s.len() as int) =~= retained_s);
            assert forall|j: int| 0 <= j < k + 1 implies suggestion_edge_ok(
                #[trigger] store.suggestion_edges@[retained_s.len() + j],
                metadata_id,
                suggestions@[j],
                store.metadata@,
            ) by {
                if j < k {
                    assert(store.suggestion_edges@[retained_s.len() + j]
                        == se_before[retained_s.len() + j]);
                    assert(suggestion_edge_ok(
                        se_before[retained_s.len() + j],
                        metadata_id,
                        suggestions@[j],
                        rows_before,
                    ));
                    let ri = choose|ri: int|
                        0 <= ri < rows_before.len() && (#[trigger] rows_before[ri]).id
                            == se_before[retained_s.len() + j].to_metadata_id && metadata_matches(
                            rows_before[ri],
                            suggestions@[j].lot,
                            suggestions@[j].source@,
                            suggestions@[j].identifier@,
                        );
                    assert(store.metadata@[ri] == rows_before[ri]);
                }
            }
        }
        k += 1;
    }

    let mut jobs: Vec<AssociateGroupJob> = Vec::new();
    let mut k: usize = 0;
    while k < groups.len()
        invariant
            0 <= k <= groups@.len(),
            jobs@.len() == k,
            forall|j: int|
                0 <= j < k ==> {
                    let jb = #[trigger] jobs@[j];
                    jb.lot == lot && jb.source@ == source@ && jb.group_identifier@ == groups@[j]@
                },
        decreases groups@.len() - k,
    {
        jobs.push(
            AssociateGroupJob {
                lot,
                source: source.clone(),
                group_identifier: groups[k].clone(),
            },
        );
        k += 1;
    }
    jobs
}

/// Index of the first metadata row with the given id, or -1.
pub open spec fn find_row_by_id(rows: Seq<MetadataRow>, id: u64) -> int
    decreases rows.len(),
{
    if rows.len() == 0 {
        -1
    } else if rows[0].id == id {
        0
    } else {
        let r = find_row_by_id(rows.drop_first(), id);
        if r == -1 {
            -1
        } else {
            r + 1
        }
    }
}

proof fn lemma_find_row_by_id_prefix(rows: Seq<MetadataRow>, id: u64, i: int)
    requires
        0 <= i <= rows.len(),
        forall|k: int| 0 <= k < i ==> (#[trigger] rows[k]).id != id,
    ensures
        i == rows.len() ==> find_row_by_id(rows, id) == -1,
        i < rows.len() && rows[i].id == id ==> find_row_by_id(rows, id) == i,
    decreases i,
{
    if i > 0 {
        lemma_find_row_by_id_prefix(rows.drop_first(), id, i - 1);
    }
}

/// Find a metadata row by its id.
pub fn find_row_index(store: &CatalogStore, metadata_id: u64) -> (r: Option<usize>)
    ensures
        match r {
            Option::Some(i) => find_row_by_id(store.metadata@, metadata_id) == i as int && i
                < store.metadata@.len() && store.metadata@[i as int].id == metadata_id,
            Option::None => find_row_by_id(store.metadata@, metadata_id) == -1,
        },
{
    let mut idx: usize = 0;
    while idx < store.metadata.len()
        invariant
            0 <= idx <= store.metadata@.len(),
            forall|k: int| 0 <= k < idx ==> (#[trigger] store.metadata@[k]).id != metadata_id,
        decreases store.metadata@.len() - idx,
    {
        if store.metadata[idx].id == metadata_id {
            proof {
                lemma_find_row_by_id_prefix(store.metadata@, metadata_id, idx as int);
            }
            return Some(idx);
        }
        idx += 1;
    }
    proof {
        lemma_find_row_by_id_prefix(store.metadata@, metadata_id, store.metadata@.len() as int);
    }
    None
}

/// Refresh one entity from a fetched snapshot. The row is marked no longer
/// partial in any case. On a successful fetch the stored snapshot is
/// diffed against the fresh one, the typed change notices are returned,
/// the snapshot is overwritten wholesale, and the associations are
/// rewritten; group identifiers come back as fire-and-forget jobs. On a
/// fetch error nothing else is touched and no notice is produced, so a
/// half-updated snapshot can never be observed.
#[verifier::rlimit(100)]
pub fn update_metadata(
    store: &mut CatalogStore,
    metadata_id: u64,
    maybe_details: Result<MediaDetails, String>,
    specials: &Vec<String>,
    now: i64,
) -> (r: (Vec<ChangeNotice>, Vec<AssociateGroupJob>))
    requires
        find_row_by_id(old(store).metadata@, metadata_id) >= 0,
        maybe_details is Ok ==> old(store).next_id + maybe_details.unwrap().people@.len()
            + maybe_details.unwrap().genres@.len() + maybe_details.unwrap().suggestions@.len()
            < u64::MAX,
    ensures
        ({
            let idx = find_row_by_id(old(store).metadata@, metadata_id);
            let old_row = old(store).metadata@[idx];
            match maybe_details {
                Result::Err(_) => {
                    &&& r.0@.len() == 0
                    &&& r.1@.len() == 0
                    &&& final(store).metadata@.len() == old(store).metadata@.len()
                    &&& forall|j: int|
                        0 <= j < old(store).metadata@.len() && j != idx ==> final(store).metadata@[j] == old(store).metadata@[j]
                    &&& ({
                        let row = final(store).metadata@[idx];
                        &&& row.id == old_row.id
                        &&& row.lot == old_row.lot
                        &&& row.source == old_row.source
                        &&& row.identifier == old_row.identifier
                        &&& row.last_updated_on == old_row.last_updated_on
                        &&& row.details == old_row.details
                        &&& !row.is_partial
                    })
                    &&& final(store).people == old(store).people
                    &&& final(store).genres == old(store).genres
                    &&& final(store).person_edges == old(store).person_edges
                    &&& final(store).genre_edges == old(store).genre_edges
                    &&& final(store).suggestion_edges == old(store).suggestion_edges
                },
                Result::Ok(details) => {
                    &&& r.0@ == spec_metadata_diff(old_row.details, details, specials@)
                    &&& final(store).metadata@.len() >= old(store).metadata@.len()
                    &&& forall|j: int|
                        0 <= j < old(store).metadata@.len() && j != idx ==> final(store).metadata@[j] == old(store).metadata@[j]
                    &&& ({
                        let row = final(store).metadata@[idx];
                        &&& row.id == old_row.id
                        &&& row.lot == old_row.lot
                        &&& row.details == details
                        &&& row.last_updated_on == now
                        &&& !row.is_partial
                    })
                    &&& ({
                        let retained = retained_person_edges(old(store).person_edges@, metadata_id);
                        let pe = final(store).person_edges@;
                        &&& pe.len() == retained.len() + details.people@.len()
                        &&& pe.subrange(0, retained.len() as int) == retained
                        &&& forall|k: int|
                            0 <= k < details.people@.len() ==> person_edge_ok(
                                #[trigger] pe[retained.len() + k],
                                metadata_id,
                                details.people@[k],
                                k,
                                final(store).people@,
                            )
                    })
                    &&& ({
                        let retained = retained_genre_edges(old(store).genre_edges@, metadata_id);
                        let ge = final(store).genre_edges@;
                        &&& ge.len() == retained.len() + details.genres@.len()
                        &&& ge.subrange(0, retained.len() as int) == retained
                        &&& forall|k: int|
                            0 <= k < details.genres@.len() ==> genre_edge_ok(
                                #[trigger] ge[retained.len() + k],
                                metadata_id,
                                details.genres@[k],
                                final(store).genres@,
                            )
                    })
                    &&& ({
                        let retained = retained_suggestion_edges(
                            old(store).suggestion_edges@,
                            metadata_id,
                        );
                        let se = final(store).suggestion_edges@;
                        &&& se.len() == retained.len() + details.suggestions@.len()
                        &&& se.subrange(0, retained.len() as int) == retained
                        &&& forall|k: int|
                            0 <= k < details.suggestions@.len() ==> suggestion_edge_ok(
                                #[trigger] se[retained.len() + k],
                                metadata_id,
                                details.suggestions@[k],
                                final(store).metadata@,
                            )
                    })
                    &&& r.1@.len() == details.group_identifiers@.len()
                    &&& forall|k: int|
                        0 <= k < details.group_identifiers@.len() ==> {
                            let j = #[trigger] r.1@[k];
                            j.lot == old_row.lot && j.source@ == old_row.source@
                                && j.group_identifier@ == details.group_identifiers@[k]@
                        }
                },
            }
        }),
{
    let idx = match find_row_index(store, metadata_id) {
        Some(i) => i,
        None => {
            proof {
                assert(false);
            }
            return (Vec::new(), Vec::new());
        },
    };
    match maybe_details {
        Err(_) => {
            let mut row = MetadataRow {
                id: 0,
                lot: MediaLot::Book,
                source: String::new(),
                identifier: String::new(),
                is_partial: false,
                last_updated_on: 0,
                details: MediaDetails {
                    title: String::new(),
                    description: None,
                    production_status: None,
                    publish_year: None,
                    publish_date: None,
                    show_specifics: None,
                    podcast_specifics: None,
                    anime_specifics: None,
                    manga_specifics: None,
                    movie_specifics: None,
                    book_specifics: None,
                    audio_book_specifics: None,
                    visual_novel_specifics: None,
                    video_game_specifics: None,
                    genres: Vec::new(),
                    people: Vec::new(),
                    suggestions: Vec::new(),
                    group_identifiers: Vec::new(),
                },
            };
            store.metadata.set_and_swap(idx, &mut row);
            let updated = MetadataRow {
                id: row.id,
                lot: row.lot,
                source: row.source,
                identifier: row.identifier,
                is_partial: false,
                last_updated_on: row.last_updated_on,
                details: row.details,
            };
            store.metadata.set(idx, updated);
            (Vec::new(), Vec::new())
        },
        Ok(details) => {
            let old_row = &store.metadata[idx];
            let notices = metadata_diff(&old_row.details, &details, specials);
            let row_lot = old_row.lot;
            let source = old_row.source.clone();
            let identifier = old_row.identifier.clone();
            let jobs = change_metadata_associations(
                store,
                metadata_id,
                row_lot,
                &source,
                &details.genres,
                &details.suggestions,
                &details.group_identifiers,
                &details.people,
            );
            let row = MetadataRow {
                id: metadata_id,
                lot: row_lot,
                source,
                identifier,
                is_partial: false,
                last_updated_on: now,
                details,
            };
            let ghost mid_meta = store.metadata@;
            let ghost suggestions0 = row.details.suggestions@;
            store.metadata.set(idx, row);
            proof {
                assert forall|j: int|
                    0 <= j < old(store).metadata@.len() && j != idx as int implies store.metadata@[j]
                    == old(store).metadata@[j] by {
                    assert(store.metadata@[j] == mid_meta[j]);
                    assert(mid_meta.subrange(0, old(store).metadata@.len() as int)[j] == old(
                        store,
                    ).metadata@[j]);
                }
                assert(mid_meta.subrange(0, old(store).metadata@.len() as int)[idx as int] == old(
                    store,
                ).metadata@[idx as int]);
                assert(mid_meta[idx as int] == old(store).metadata@[idx as int]);
                let retained = retained_suggestion_edges(old(store).suggestion_edges@, metadata_id);
                let se = store.suggestion_edges@;
                assert forall|k: int| 0 <= k < suggestions0.len() implies suggestion_edge_ok(
                    #[trigger] se[retained.len() + k],
                    metadata_id,
                    suggestions0[k],
                    store.metadata@,
                ) by {
                    assert(suggestion_edge_ok(
                        se[retained.len() + k],
                        metadata_id,
                        suggestions0[k],
                        mid_meta,
                    ));
                    let ri = choose|ri: int|
                        0 <= ri < mid_meta.len() && (#[trigger] mid_meta[ri]).id == se[retained.len()
                            + k].to_metadata_id && metadata_matches(
                            mid_meta[ri],
                            suggestions0[k].lot,
                            suggestions0[k].source@,
                            suggestions0[k].identifier@,
                        );
                    if ri == idx as int {
                        assert(store.metadata@[ri].id == mid_meta[ri].id);
                        assert(store.metadata@[ri].lot == mid_meta[ri].lot);
                        assert(store.metadata@[ri].source@ == mid_meta[ri].source@);
                        assert(store.metadata@[ri].identifier@ == mid_meta[ri].identifier@);
                    } else {
                        assert(store.metadata@[ri] == mid_meta[ri]);
                    }
                }
            }
            (notices, jobs)
        },
    }
}

proof fn lemma_find_person_props(
    people: Seq<PersonRow>,
    source: Seq<char>,
    identifier: Seq<char>,
    specifics: Option<String>,
)
    ensures
        ({
            let idx = find_person_idx(people, source, identifier, specifics);
            idx >= 0 ==> idx < people.len() && person_matches(
                people[idx],
                source,
                identifier,
                specifics,
            )
        }),
    decreases people.len(),
{
    if people.len() > 0 && !person_matches(people[0], source, identifier, specifics) {
        lemma_find_person_props(people.drop_first(), source, identifier, specifics);
    }
}

proof fn lemma_find_genre_props(genres: Seq<GenreRow>, name: Seq<char>)
    ensures
        ({
            let idx = find_genre_idx(genres, name);
            idx >= 0 ==> idx < genres.len() && genres[idx].name@ == name
        }),
    decreases genres.len(),
{
    if genres.len() > 0 && genres[0].name@ != name {
        lemma_find_genre_props(genres.drop_first(), name);
    }
}

proof fn lemma_find_metadata_props(
    rows: Seq<MetadataRow>,
    lot: MediaLot,
    source: Seq<char>,
    identifier: Seq<char>,
)
    ensures
        ({
            let idx = find_metadata_idx(rows, lot, source, identifier);
            idx >= 0 ==> idx < rows.len() && metadata_matches(rows[idx], lot, source, identifier)
        }),
    decreases rows.len(),
{
    if rows.len() > 0 && !metadata_matches(rows[0], lot, source, identifier) {
        lemma_find_metadata_props(rows.drop_first(), lot, source, identifier);
    }
}

/// One row of the monitored-entities set: read-only here, it defines the
/// notification fan-out targets.
#[derive(Clone, Copy, Debug, PartialEq, Eq, Structural)]
pub struct MonitoredEntityRow {
    pub user_id: u64,
    pub entity_id: u64,
    pub entity_lot: EntityLot,
}

/// The users monitoring one entity, in row order.
pub open spec fn spec_monitoring_users(
    rows: Seq<MonitoredEntityRow>,
    entity_id: u64,
    entity_lot: EntityLot,
) -> Seq<u64>
    decreases rows.len(),
{
    if rows.len() == 0 {
        Seq::empty()
    } else {
        spec_monitoring_users(rows.drop_last(), entity_id, entity_lot) + (if rows.last().entity_id
            == entity_id && rows.last().entity_lot == entity_lot {
            seq![rows.last().user_id]
        } else {
            Seq::empty()
        })
    }
}

/// Look up every user monitoring an entity.
pub fn get_entities_monitored_by(
    rows: &Vec<MonitoredEntityRow>,
    entity_id: u64,
    entity_lot: EntityLot,
) -> (users: Vec<u64>)
    ensures
        users@ == spec_monitoring_users(rows@, entity_id, entity_lot),
{
    let mut users: Vec<u64> = Vec::new();
    let mut i: usize = 0;
    proof {
        assert(spec_monitoring_users(rows@.take(0), entity_id, entity_lot) =~= Seq::<u64>::empty());
    }
    while i < rows.len()
        invariant
            0 <= i <= rows@.len(),
            users@ == spec_monitoring_users(rows@.take(i as int), entity_id, entity_lot),
        decreases rows@.len() - i,
    {
        proof {
            assert(rows@.take(i + 1).drop_last() =~= rows@.take(i as int));
            assert(rows@.take(i + 1).last() == rows@[i as int]);
        }
        let row = rows[i];
        if row.entity_id == entity_id && matches!(
            (row.entity_lot, entity_lot),
            (EntityLot::Metadata, EntityLot::Metadata) | (EntityLot::MetadataGroup, EntityLot::MetadataGroup) | (EntityLot::Person, EntityLot::Person),
        ) {
            users.push(row.user_id);
        }
        proof {
            assert(users@ =~= spec_monitoring_users(rows@.take(i + 1), entity_id, entity_lot));
        }
        i += 1;
    }
    proof {
        assert(rows@.take(rows@.len() as int) =~= rows@);
    }
    users
}

/// One user's notification preferences: a master switch and the change
/// kinds the user subscribed to.
#[derive(Clone, Debug)]
pub struct NotificationPreferences {
    pub enabled: bool,
    pub to_send: Vec<MediaStateChanged>,
}

/// Whether one notice survives a user's preferences.
pub open spec fn notice_wanted(prefs: NotificationPreferences, kind: MediaStateChanged) -> bool {
    prefs.enabled && prefs.to_send@.contains(kind)
}

/// The positions of the notices one user receives, in emission order.
pub open spec fn spec_wanted_indices(
    notices: Seq<ChangeNotice>,
    prefs: NotificationPreferences,
    n: int,
) -> Seq<usize>
    decreases n,
{
    if n <= 0 {
        Seq::empty()
    } else {
        spec_wanted_indices(notices, prefs, n - 1) + (if notice_wanted(prefs, notices[n - 1].kind) {
            seq![(n - 1) as usize]
        } else {
            Seq::empty()
        })
    }
}

/// Filter a refresh's change notices by one user's preferences, returning
/// the positions of the notices to queue for delivery. A disabled user
/// receives nothing; failures downstream are the caller's to isolate per
/// recipient.
pub fn filter_notices_for_user(
    prefs: &NotificationPreferences,
    notices: &Vec<ChangeNotice>,
) -> (wanted: Vec<usize>)
    ensures
        wanted@ == spec_wanted_indices(notices@, *prefs, notices@.len() as int),
{
    let mut wanted: Vec<usize> = Vec::new();
    let mut i: usize = 0;
    while i < notices.len()
        invariant
            0 <= i <= notices@.len(),
            wanted@ == spec_wanted_indices(notices@, *prefs, i as int),
        decreases notices@.len() - i,
    {
        let kind = notices[i].kind;
        if prefs.enabled && contains_kind(&prefs.to_send, kind) {
            wanted.push(i);
        }
        proof {
            assert(wanted@ =~= spec_wanted_indices(notices@, *prefs, i + 1));
        }
        i += 1;
    }
    wanted
}

fn contains_kind(kinds: &Vec<MediaStateChanged>, kind: MediaStateChanged) -> (r: bool)
    ensures
        r == kinds@.contains(kind),
{
    let mut i: usize = 0;
    while i < kinds.len()
        invariant
            0 <= i <= kinds@.len(),
            forall|k: int| 0 <= k < i ==> kinds@[k] != kind,
        decreases kinds@.len() - i,
    {
        if kinds[i] == kind {
            proof {
                assert(kinds@.contains(kind));
            }
            return true;
        }
        i += 1;
    }
    proof {
        assert(!kinds@.contains(kind));
    }
    false
}

/// Commit a freshly fetched entity that the store does not hold yet:
/// insert the full snapshot as a new row and build its associations from
/// it. The caller looks the key up first ([`commit_metadata_lookup`]) and
/// fetches from the provider only on a miss, so the commit stays
/// idempotent.
pub fn commit_metadata_create(
    store: &mut CatalogStore,
    lot: MediaLot,
    source: &String,
    identifier: &String,
    details: MediaDetails,
    now: i64,
) -> (r: (u64, Vec<AssociateGroupJob>))
    requires
        old(store).next_id as int + 1 + details.people@.len() + details.genres@.len()
            + details.suggestions@.len() < u64::MAX,
    ensures
        r.0 == old(store).next_id,
        final(store).metadata@.len() >= old(store).metadata@.len() + 1,
        final(store).metadata@.subrange(0, old(store).metadata@.len() as int) == old(
            store,
        ).metadata@,
        ({
            let row = final(store).metadata@[old(store).metadata@.len() as int];
            &&& row.id == r.0
            &&& row.lot == lot
            &&& row.source@ == source@
            &&& row.identifier@ == identifier@
            &&& !row.is_partial
            &&& row.last_updated_on == now
            &&& row.details == details
        }),
        ({
            let retained = retained_person_edges(old(store).person_edges@, old(store).next_id);
            let pe = final(store).person_edges@;
            &&& pe.len() == retained.len() + details.people@.len()
            &&& forall|k: int|
                0 <= k < details.people@.len() ==> person_edge_ok(
                    #[trigger] pe[retained.len() + k],
                    r.0,
                    details.people@[k],
                    k,
                    final(store).people@,
                )
        }),
        ({
            let retained = retained_genre_edges(old(store).genre_edges@, old(store).next_id);
            let ge = final(store).genre_edges@;
            &&& ge.len() == retained.len() + details.genres@.len()
            &&& forall|k: int|
                0 <= k < details.genres@.len() ==> genre_edge_ok(
                    #[trigger] ge[retained.len() + k],
                    r.0,
                    details.genres@[k],
                    final(store).genres@,
                )
        }),
        r.1@.len() == details.group_identifiers@.len(),
        forall|k: int|
            0 <= k < details.group_identifiers@.len() ==> {
                let j = #[trigger] r.1@[k];
                j.lot == lot && j.source@ == source@ && j.group_identifier@
                    == details.group_identifiers@[k]@
            },
{
    let id = store.next_id;
    store.next_id = store.next_id + 1;
    let ghost before = store.metadata@;
    store.metadata.push(
        MetadataRow {
            id,
            lot,
            source: source.clone(),
            identifier: identifier.clone(),
            is_partial: false,
            last_updated_on: now,
            details,
        },
    );
    proof {
        assert(store.metadata@.subrange(0, before.len() as int) =~= before);
    }
    let row_idx = store.metadata.len() - 1;
    let ghost mid = *store;
    let jobs = change_metadata_associations_from_row(store, row_idx, id, lot, source);
    proof {
        assert forall|idx: int|
            0 <= idx < before.len() implies store.metadata@[idx] == before[idx] by {
            assert(store.metadata@.subrange(0, mid.metadata@.len() as int)[idx] == mid.metadata@[
                idx]);
            assert(mid.metadata@.subrange(0, before.len() as int)[idx] == before[idx]);
        }
        assert(store.metadata@.subrange(0, before.len() as int) =~= before);
    }
    (id, jobs)
}

/// Rewrite the associations of the row at `row_idx` from its own stored
/// snapshot.
fn change_metadata_associations_from_row(
    store: &mut CatalogStore,
    row_idx: usize,
    metadata_id: u64,
    lot: MediaLot,
    source: &String,
) -> (jobs: Vec<AssociateGroupJob>)
    requires
        row_idx < old(store).metadata@.len(),
        old(store).metadata@[row_idx as int].id == metadata_id,
        old(store).next_id as int + old(store).metadata@[row_idx as int].details.people@.len()
            + old(store).metadata@[row_idx as int].details.genres@.len() + old(
            store,
        ).metadata@[row_idx as int].details.suggestions@.len() < u64::MAX,
    ensures
        ({
            let details = old(store).metadata@[row_idx as int].details;
            &&& final(store).metadata@.len() >= old(store).metadata@.len()
            &&& final(store).metadata@.subrange(0, old(store).metadata@.len() as int) == old(
                store,
            ).metadata@
            &&& ({
                let retained = retained_person_edges(old(store).person_edges@, metadata_id);
                let pe = final(store).person_edges@;
                &&& pe.len() == retained.len() + details.people@.len()
                &&& forall|k: int|
                    0 <= k < details.people@.len() ==> person_edge_ok(
                        #[trigger] pe[retained.len() + k],
                        metadata_id,
                        details.people@[k],
                        k,
                        final(store).people@,
                    )
            })
            &&& ({
                let retained = retained_genre_edges(old(store).genre_edges@, metadata_id);
                let ge = final(store).genre_edges@;
                &&& ge.len() == retained.len() + details.genres@.len()
                &&& forall|k: int|
                    0 <= k < details.genres@.len() ==> genre_edge_ok(
                        #[trigger] ge[retained.len() + k],
                        metadata_id,
                        details.genres@[k],
                        final(store).genres@,
                    )
            })
            &&& jobs@.len() == details.group_identifiers@.len()
            &&& forall|k: int|
                0 <= k < details.group_identifiers@.len() ==> {
                    let j = #[trigger] jobs@[k];
                    j.lot == lot && j.source@ == source@ && j.group_identifier@
                        == details.group_identifiers@[k]@
                }
        }),
{
    let genres = clone_string_vec(&store.metadata[row_idx].details.genres);
    let suggestions = clone_suggestions(&store.metadata[row_idx].details.suggestions);
    let groups = clone_string_vec(&store.metadata[row_idx].details.group_identifiers);
    let people = clone_people(&store.metadata[row_idx].details.people);
    change_metadata_associations(
        store,
        metadata_id,
        lot,
        source,
        &genres,
        &suggestions,
        &groups,
        &people,
    )
}

fn clone_string_vec(v: &Vec<String>) -> (r: Vec<String>)
    ensures
        r@.len() == v@.len(),
        forall|i: int| 0 <= i < v@.len() ==> (#[trigger] r@[i])@ == v@[i]@,
{
    let mut r: Vec<String> = Vec::new();
    let mut i: usize = 0;
    while i < v.len()
        invariant
            0 <= i <= v@.len(),
            r@.len() == i,
            forall|k: int| 0 <= k < i ==> (#[trigger] r@[k])@ == v@[k]@,
        decreases v@.len() - i,
    {
        r.push(v[i].clone());
        i += 1;
    }
    r
}

fn clone_suggestions(v: &Vec<PartialMetadataWithoutId>) -> (r: Vec<PartialMetadataWithoutId>)
    ensures
        r@.len() == v@.len(),
        forall|i: int|
            0 <= i < v@.len() ==> {
                let a = #[trigger] r@[i];
                let b = v@[i];
                a.identifier@ == b.identifier@ && a.lot == b.lot && a.source@ == b.source@
                    && a.title@ == b.title@
            },
{
    let mut r: Vec<PartialMetadataWithoutId> = Vec::new();
    let mut i: usize = 0;
    while i < v.len()
        invariant
            0 <= i <= v@.len(),
            r@.len() == i,
            forall|k: int|
                0 <= k < i ==> {
                    let a = #[trigger] r@[k];
                    let b = v@[k];
                    a.identifier@ == b.identifier@ && a.lot == b.lot && a.source@ == b.source@
                        && a.title@ == b.title@
                },
        decreases v@.len() - i,
    {
        let s = &v[i];
        r.push(
            PartialMetadataWithoutId {
                identifier: s.identifier.clone(),
                lot: s.lot,
                source: s.source.clone(),
                title: s.title.clone(),
            },
        );
        i += 1;
    }
    r
}

fn clone_people(v: &Vec<PartialMetadataPerson>) -> (r: Vec<PartialMetadataPerson>)
    ensures
        r@.len() == v@.len(),
        forall|i: int|
            0 <= i < v@.len() ==> {
                let a = #[trigger] r@[i];
                let b = v@[i];
                a.identifier@ == b.identifier@ && a.source@ == b.source@ && opt_str_eq(
                    a.source_specifics,
                    b.source_specifics,
                ) && (a.source_specifics is Some <==> b.source_specifics is Some) && a.name@
                    == b.name@ && a.role@ == b.role@ && opt_str_eq(a.character, b.character)
            },
{
    let mut r: Vec<PartialMetadataPerson> = Vec::new();
    let mut i: usize = 0;
    while i < v.len()
        invariant
            0 <= i <= v@.len(),
            r@.len() == i,
            forall|k: int|
                0 <= k < i ==> {
                    let a = #[trigger] r@[k];
                    let b = v@[k];
                    a.identifier@ == b.identifier@ && a.source@ == b.source@ && opt_str_eq(
                        a.source_specifics,
                        b.source_specifics,
                    ) && (a.source_specifics is Some <==> b.source_specifics is Some) && a.name@
                        == b.name@ && a.role@ == b.role@ && opt_str_eq(a.character, b.character)
                },
        decreases v@.len() - i,
    {
        let s = &v[i];
        r.push(
            PartialMetadataPerson {
                identifier: s.identifier.clone(),
                source: s.source.clone(),
                source_specifics: clone_opt_string(&s.source_specifics),
                name: s.name.clone(),
                role: s.role.clone(),
                character: clone_opt_string(&s.character),
            },
        );
        i += 1;
    }
    r
}

} // verus!
