//! Incremental per-user summary: folds the completed-seen stream together
//! with review, measurement, workout and interaction counts into a resumable
//! summary. A non-forced run scans only events newer than the previous
//! checkpoint; a forced run starts from zero (and asks the caller to reset
//! the per-entity unit totals first) and scans everything.

use vstd::prelude::*;
use crate::{sat_add_i64, sat_add_u64, spec_sat_add_i64, spec_sat_add_u64, FixedValue};
use crate::types::{
    AnimeSpecifics, AudioBookSpecifics, BookSpecifics, MangaSpecifics, MediaLot, MovieSpecifics,
    PodcastSpecifics, SeenAnimeExtraInformation, SeenMangaExtraInformation,
    SeenPodcastExtraInformation, SeenShowExtraInformation, ShowSpecifics, VideoGameSpecifics,
    VisualNovelSpecifics, spec_episode_by_number, spec_get_episode,
};

verus! {

/// One completed consumption event, joined with the specifics of its entity.
#[derive(Clone, Debug)]
pub struct SeenEvent {
    pub metadata_id: u64,
    pub metadata_lot: MediaLot,
    pub finished_on: Option<i64>,
    pub last_updated_on: i64,
    pub show_extra_information: Option<SeenShowExtraInformation>,
    pub podcast_extra_information: Option<SeenPodcastExtraInformation>,
    pub anime_extra_information: Option<SeenAnimeExtraInformation>,
    pub manga_extra_information: Option<SeenMangaExtraInformation>,
    pub audio_book_specifics: Option<AudioBookSpecifics>,
    pub book_specifics: Option<BookSpecifics>,
    pub movie_specifics: Option<MovieSpecifics>,
    pub anime_specifics: Option<AnimeSpecifics>,
    pub manga_specifics: Option<MangaSpecifics>,
    pub show_specifics: Option<ShowSpecifics>,
    pub podcast_specifics: Option<PodcastSpecifics>,
    pub video_game_specifics: Option<VideoGameSpecifics>,
    pub visual_novel_specifics: Option<VisualNovelSpecifics>,
}

/// One posted review, reduced to what the counters read.
#[derive(Clone, Copy, Debug, PartialEq, Eq, Structural)]
pub struct ReviewEvent {
    pub posted_on: i64,
    pub on_metadata: bool,
    pub on_person: bool,
}

/// One recorded workout, reduced to what the counters read.
#[derive(Clone, Copy, Debug, PartialEq, Eq, Structural)]
pub struct WorkoutEvent {
    pub end_time: i64,
    /// Duration in seconds.
    pub duration: i32,
    /// Total weight lifted.
    pub weight: FixedValue,
}

/// One body measurement, reduced to its timestamp.
#[derive(Clone, Copy, Debug, PartialEq, Eq, Structural)]
pub struct MeasurementEvent {
    pub timestamp: i64,
}

/// One (user, entity) interaction row, reduced to what the counters read.
#[derive(Clone, Copy, Debug, PartialEq, Eq, Structural)]
pub struct InteractionEvent {
    pub last_updated_on: i64,
    pub has_metadata: bool,
    pub has_person: bool,
    pub has_exercise: bool,
}

/// Everything one summary run scans.
#[derive(Clone, Debug)]
pub struct SummaryEvents {
    pub seen: Vec<SeenEvent>,
    pub reviews: Vec<ReviewEvent>,
    pub measurements: Vec<MeasurementEvent>,
    pub workouts: Vec<WorkoutEvent>,
    pub interactions: Vec<InteractionEvent>,
}

/// The additive counters of one user's summary.
#[derive(Clone, Copy, Debug, PartialEq, Eq, Structural)]
pub struct SummaryCounters {
    pub books_read: u64,
    pub books_pages: i64,
    pub movies_watched: u64,
    pub movies_runtime: i64,
    pub shows_watched: u64,
    pub shows_watched_episodes: u64,
    pub shows_watched_seasons: u64,
    pub shows_runtime: i64,
    pub podcasts_played: u64,
    pub podcasts_played_episodes: u64,
    pub podcasts_runtime: i64,
    pub anime_watched: u64,
    pub anime_episodes: u64,
    pub manga_read: u64,
    pub manga_chapters: u64,
    pub audio_books_played: u64,
    pub audio_books_runtime: i64,
    pub visual_novels_played: u64,
    pub visual_novels_runtime: i64,
    pub video_games_played: u64,
    pub metadata_reviewed: u64,
    pub metadata_interacted_with: u64,
    pub people_reviewed: u64,
    pub people_interacted_with: u64,
    pub measurements_recorded: u64,
    pub exercises_interacted_with: u64,
    pub workouts_recorded: u64,
    pub workouts_duration: FixedValue,
    pub workouts_weight: FixedValue,
}

/// All counters at zero.
pub open spec fn zero_counters() -> SummaryCounters {
    SummaryCounters {
        books_read: 0,
        books_pages: 0,
        movies_watched: 0,
        movies_runtime: 0,
        shows_watched: 0,
        shows_watched_episodes: 0,
        shows_watched_seasons: 0,
        shows_runtime: 0,
        podcasts_played: 0,
        podcasts_played_episodes: 0,
        podcasts_runtime: 0,
        anime_watched: 0,
        anime_episodes: 0,
        manga_read: 0,
        manga_chapters: 0,
        audio_books_played: 0,
        audio_books_runtime: 0,
        visual_novels_played: 0,
        visual_novels_runtime: 0,
        video_games_played: 0,
        metadata_reviewed: 0,
        metadata_interacted_with: 0,
        people_reviewed: 0,
        people_interacted_with: 0,
        measurements_recorded: 0,
        exercises_interacted_with: 0,
        workouts_recorded: 0,
        workouts_duration: FixedValue { hundredths: 0 },
        workouts_weight: FixedValue { hundredths: 0 },
    }
}

fn counters_zero() -> (r: SummaryCounters)
    ensures
        r == zero_counters(),
{
    SummaryCounters {
        books_read: 0,
        books_pages: 0,
        movies_watched: 0,
        movies_runtime: 0,
        shows_watched: 0,
        shows_watched_episodes: 0,
        shows_watched_seasons: 0,
        shows_runtime: 0,
        podcasts_played: 0,
        podcasts_played_episodes: 0,
        podcasts_runtime: 0,
        anime_watched: 0,
        anime_episodes: 0,
        manga_read: 0,
        manga_chapters: 0,
        audio_books_played: 0,
        audio_books_runtime: 0,
        visual_novels_played: 0,
        visual_novels_runtime: 0,
        video_games_played: 0,
        metadata_reviewed: 0,
        metadata_interacted_with: 0,
        people_reviewed: 0,
        people_interacted_with: 0,
        measurements_recorded: 0,
        exercises_interacted_with: 0,
        workouts_recorded: 0,
        workouts_duration: FixedValue { hundredths: 0 },
        workouts_weight: FixedValue { hundredths: 0 },
    }
}

/// A (metadata, episode) identity.
#[derive(Clone, Copy, Debug, PartialEq, Eq, Structural)]
pub struct IdEpisode {
    pub metadata_id: u64,
    pub episode: i32,
}

/// A (metadata, chapter) identity.
#[derive(Clone, Copy, Debug, PartialEq, Eq, Structural)]
pub struct IdChapter {
    pub metadata_id: u64,
    pub chapter: FixedValue,
}

/// A (metadata, volume) identity.
#[derive(Clone, Copy, Debug, PartialEq, Eq, Structural)]
pub struct IdVolume {
    pub metadata_id: u64,
    pub volume: i32,
}

/// A (metadata, season) identity.
#[derive(Clone, Copy, Debug, PartialEq, Eq, Structural)]
pub struct IdSeason {
    pub metadata_id: u64,
    pub season: i32,
}

/// A (metadata, season, episode) identity.
#[derive(Clone, Copy, Debug, PartialEq, Eq, Structural)]
pub struct IdSeasonEpisode {
    pub metadata_id: u64,
    pub season: i32,
    pub episode: i32,
}

/// The unique-identity sets that derive the distinct "watched / played /
/// read" counts; re-consuming the same unit never double counts.
#[derive(Clone, Debug)]
pub struct UniqueItems {
    pub audio_books: Vec<u64>,
    pub books: Vec<u64>,
    pub movies: Vec<u64>,
    pub anime: Vec<u64>,
    pub manga: Vec<u64>,
    pub shows: Vec<u64>,
    pub podcasts: Vec<u64>,
    pub video_games: Vec<u64>,
    pub visual_novels: Vec<u64>,
    pub anime_episodes: Vec<IdEpisode>,
    pub podcast_episodes: Vec<IdEpisode>,
    pub manga_chapters: Vec<IdChapter>,
    pub manga_volumes: Vec<IdVolume>,
    pub show_seasons: Vec<IdSeason>,
    pub show_episodes: Vec<IdSeasonEpisode>,
}

/// Ghost view of the unique-identity sets.
pub struct UniqueView {
    pub audio_books: Seq<u64>,
    pub books: Seq<u64>,
    pub movies: Seq<u64>,
    pub anime: Seq<u64>,
    pub manga: Seq<u64>,
    pub shows: Seq<u64>,
    pub podcasts: Seq<u64>,
    pub video_games: Seq<u64>,
    pub visual_novels: Seq<u64>,
    pub anime_episodes: Seq<IdEpisode>,
    pub podcast_episodes: Seq<IdEpisode>,
    pub manga_chapters: Seq<IdChapter>,
    pub manga_volumes: Seq<IdVolume>,
    pub show_seasons: Seq<IdSeason>,
    pub show_episodes: Seq<IdSeasonEpisode>,
}

/// The view of concrete unique-identity sets.
pub open spec fn unique_view(u: UniqueItems) -> UniqueView {
    UniqueView {
        audio_books: u.audio_books@,
        books: u.books@,
        movies: u.movies@,
        anime: u.anime@,
        manga: u.manga@,
        shows: u.shows@,
        podcasts: u.podcasts@,
        video_games: u.video_games@,
        visual_novels: u.visual_novels@,
        anime_episodes: u.anime_episodes@,
        podcast_episodes: u.podcast_episodes@,
        manga_chapters: u.manga_chapters@,
        manga_volumes: u.manga_volumes@,
        show_seasons: u.show_seasons@,
        show_episodes: u.show_episodes@,
    }
}

/// Empty unique-identity sets.
pub open spec fn empty_unique_view() -> UniqueView {
    UniqueView {
        audio_books: Seq::empty(),
        books: Seq::empty(),
        movies: Seq::empty(),
        anime: Seq::empty(),
        manga: Seq::empty(),
        shows: Seq::empty(),
        podcasts: Seq::empty(),
        video_games: Seq::empty(),
        visual_novels: Seq::empty(),
        anime_episodes: Seq::empty(),
        podcast_episodes: Seq::empty(),
        manga_chapters: Seq::empty(),
        manga_volumes: Seq::empty(),
        show_seasons: Seq::empty(),
        show_episodes: Seq::empty(),
    }
}

fn unique_items_new() -> (r: UniqueItems)
    ensures
        unique_view(r) == empty_unique_view(),
{
    let r = UniqueItems {
        audio_books: Vec::new(),
        books: Vec::new(),
        movies: Vec::new(),
        anime: Vec::new(),
        manga: Vec::new(),
        shows: Vec::new(),
        podcasts: Vec::new(),
        video_games: Vec::new(),
        visual_novels: Vec::new(),
        anime_episodes: Vec::new(),
        podcast_episodes: Vec::new(),
        manga_chapters: Vec::new(),
        manga_volumes: Vec::new(),
        show_seasons: Vec::new(),
        show_episodes: Vec::new(),
    };
    proof {
        assert(unique_view(r).audio_books =~= empty_unique_view().audio_books);
        assert(unique_view(r).books =~= empty_unique_view().books);
        assert(unique_view(r).movies =~= empty_unique_view().movies);
        assert(unique_view(r).anime =~= empty_unique_view().anime);
        assert(unique_view(r).manga =~= empty_unique_view().manga);
        assert(unique_view(r).shows =~= empty_unique_view().shows);
        assert(unique_view(r).podcasts =~= empty_unique_view().podcasts);
        assert(unique_view(r).video_games =~= empty_unique_view().video_games);
        assert(unique_view(r).visual_novels =~= empty_unique_view().visual_novels);
        assert(unique_view(r).anime_episodes =~= empty_unique_view().anime_episodes);
        assert(unique_view(r).podcast_episodes =~= empty_unique_view().podcast_episodes);
        assert(unique_view(r).manga_chapters =~= empty_unique_view().manga_chapters);
        assert(unique_view(r).manga_volumes =~= empty_unique_view().manga_volumes);
        assert(unique_view(r).show_seasons =~= empty_unique_view().show_seasons);
        assert(unique_view(r).show_episodes =~= empty_unique_view().show_episodes);
    }
    r
}

/// A sequence extended by a value unless it is already present.
pub open spec fn seq_insert_unique<T>(s: Seq<T>, x: T) -> Seq<T> {
    if s.contains(x) {
        s
    } else {
        s.push(x)
    }
}

fn insert_id(v: &mut Vec<u64>, x: u64)
    ensures
        final(v)@ == seq_insert_unique(old(v)@, x),
{
    let mut i: usize = 0;
    while i < v.len()
        invariant
            0 <= i <= v@.len(),
            forall|k: int| 0 <= k < i ==> v@[k] != x,
        decreases v@.len() - i,
    {
        if v[i] == x {
            proof {
                assert(v@.contains(x));
            }
            return;
        }
        i += 1;
    }
    proof {
        assert(!v@.contains(x));
    }
    v.push(x);
}

fn insert_id_episode(v: &mut Vec<IdEpisode>, x: IdEpisode)
    ensures
        final(v)@ == seq_insert_unique(old(v)@, x),
{
    let mut i: usize = 0;
    while i < v.len()
        invariant
            0 <= i <= v@.len(),
            forall|k: int| 0 <= k < i ==> v@[k] != x,
        decreases v@.len() - i,
    {
        if v[i] == x {
            proof {
                assert(v@.contains(x));
            }
            return;
        }
        i += 1;
    }
    proof {
        assert(!v@.contains(x));
    }
    v.push(x);
}

fn insert_id_chapter(v: &mut Vec<IdChapter>, x: IdChapter)
    ensures
        final(v)@ == seq_insert_unique(old(v)@, x),
{
    let mut i: usize = 0;
    while i < v.len()
        invariant
            0 <= i <= v@.len(),
            forall|k: int| 0 <= k < i ==> v@[k] != x,
        decreases v@.len() - i,
    {
        if v[i] == x {
            proof {
                assert(v@.contains(x));
            }
            return;
        }
        i += 1;
    }
    proof {
        assert(!v@.contains(x));
    }
    v.push(x);
}

fn insert_id_volume(v: &mut Vec<IdVolume>, x: IdVolume)
    ensures
        final(v)@ == seq_insert_unique(old(v)@, x),
{
    let mut i: usize = 0;
    while i < v.len()
        invariant
            0 <= i <= v@.len(),
            forall|k: int| 0 <= k < i ==> v@[k] != x,
        decreases v@.len() - i,
    {
        if v[i] == x {
            proof {
                assert(v@.contains(x));
            }
            return;
        }
        i += 1;
    }
    proof {
        assert(!v@.contains(x));
    }
    v.push(x);
}

fn insert_id_season(v: &mut Vec<IdSeason>, x: IdSeason)
    ensures
        final(v)@ == seq_insert_unique(old(v)@, x),
{
    let mut i: usize = 0;
    while i < v.len()
        invariant
            0 <= i <= v@.len(),
            forall|k: int| 0 <= k < i ==> v@[k] != x,
        decreases v@.len() - i,
    {
        if v[i] == x {
            proof {
                assert(v@.contains(x));
            }
            return;
        }
        i += 1;
    }
    proof {
        assert(!v@.contains(x));
    }
    v.push(x);
}

fn insert_id_season_episode(v: &mut Vec<IdSeasonEpisode>, x: IdSeasonEpisode)
    ensures
        final(v)@ == seq_insert_unique(old(v)@, x),
{
    let mut i: usize = 0;
    while i < v.len()
        invariant
            0 <= i <= v@.len(),
            forall|k: int| 0 <= k < i ==> v@[k] != x,
        decreases v@.len() - i,
    {
        if v[i] == x {
            proof {
                assert(v@.contains(x));
            }
            return;
        }
        i += 1;
    }
    proof {
        assert(!v@.contains(x));
    }
    v.push(x);
}

/// Whether an event timestamp is past the checkpoint (no checkpoint scans
/// everything).
pub open spec fn after_checkpoint(t: i64, cp: Option<i64>) -> bool {
    match cp {
        Option::None => true,
        Option::Some(c) => t > c,
    }
}

fn is_after_checkpoint(t: i64, cp: &Option<i64>) -> (r: bool)
    ensures
        r == after_checkpoint(t, *cp),
{
    match cp {
        None => true,
        Some(c) => t > *c,
    }
}

/// Counters and unique sets together, as the fold carries them.
pub struct AccView {
    pub counters: SummaryCounters,
    pub unique: UniqueView,
}

/// The units one event consumes: runtime minutes, pages, or one episode or
/// chapter, depending on the media kind.
pub open spec fn spec_units(e: SeenEvent) -> Option<i32> {
    if e.audio_book_specifics is Some {
        e.audio_book_specifics.unwrap().runtime
    } else if e.book_specifics is Some {
        e.book_specifics.unwrap().pages
    } else if e.movie_specifics is Some {
        e.movie_specifics.unwrap().runtime
    } else if e.anime_specifics is Some {
        if e.anime_extra_information is Some && e.anime_extra_information.unwrap().episode
            is Some {
            Option::Some(1i32)
        } else {
            Option::None
        }
    } else if e.manga_specifics is Some {
        if e.manga_extra_information is Some {
            Option::Some(1i32)
        } else {
            Option::None
        }
    } else if e.show_specifics is Some {
        if e.show_extra_information is Some {
            let s = e.show_extra_information.unwrap();
            match spec_get_episode(e.show_specifics.unwrap().seasons@, s.season, s.episode) {
                Option::Some((_season, ep)) => ep.runtime,
                Option::None => Option::None,
            }
        } else {
            Option::None
        }
    } else if e.podcast_specifics is Some {
        if e.podcast_extra_information is Some {
            let s = e.podcast_extra_information.unwrap();
            match spec_episode_by_number(e.podcast_specifics.unwrap().episodes@, s.episode) {
                Option::Some(ep) => ep.runtime,
                Option::None => Option::None,
            }
        } else {
            Option::None
        }
    } else if e.video_game_specifics is Some {
        Option::None
    } else if e.visual_novel_specifics is Some {
        e.visual_novel_specifics.unwrap().length
    } else {
        Option::None
    }
}

/// One event absorbed into the counters and unique sets. The per-kind
/// specifics are read in a fixed precedence, matching [`spec_units`].
pub open spec fn spec_absorb_seen(a: AccView, e: SeenEvent) -> AccView {
    if e.audio_book_specifics is Some {
        AccView {
            counters: match e.audio_book_specifics.unwrap().runtime {
                Option::Some(r) => SummaryCounters {
                    audio_books_runtime: spec_sat_add_i64(a.counters.audio_books_runtime, r as int),
                    ..a.counters
                },
                Option::None => a.counters,
            },
            unique: UniqueView {
                audio_books: seq_insert_unique(a.unique.audio_books, e.metadata_id),
                ..a.unique
            },
        }
    } else if e.book_specifics is Some {
        AccView {
            counters: match e.book_specifics.unwrap().pages {
                Option::Some(p) => SummaryCounters {
                    books_pages: spec_sat_add_i64(a.counters.books_pages, p as int),
                    ..a.counters
                },
                Option::None => a.counters,
            },
            unique: UniqueView {
                books: seq_insert_unique(a.unique.books, e.metadata_id),
                ..a.unique
            },
        }
    } else if e.movie_specifics is Some {
        AccView {
            counters: match e.movie_specifics.unwrap().runtime {
                Option::Some(r) => SummaryCounters {
                    movies_runtime: spec_sat_add_i64(a.counters.movies_runtime, r as int),
                    ..a.counters
                },
                Option::None => a.counters,
            },
            unique: UniqueView {
                movies: seq_insert_unique(a.unique.movies, e.metadata_id),
                ..a.unique
            },
        }
    } else if e.anime_specifics is Some {
        AccView {
            counters: a.counters,
            unique: UniqueView {
                anime: seq_insert_unique(a.unique.anime, e.metadata_id),
                anime_episodes: (if e.anime_extra_information is Some
                    && e.anime_extra_information.unwrap().episode is Some {
                    seq_insert_unique(
                        a.unique.anime_episodes,
                        IdEpisode {
                            metadata_id: e.metadata_id,
                            episode: e.anime_extra_information.unwrap().episode.unwrap(),
                        },
                    )
                } else {
                    a.unique.anime_episodes
                }),
                ..a.unique
            },
        }
    } else if e.manga_specifics is Some {
        AccView {
            counters: a.counters,
            unique: UniqueView {
                manga: seq_insert_unique(a.unique.manga, e.metadata_id),
                manga_chapters: (if e.manga_extra_information is Some
                    && e.manga_extra_information.unwrap().chapter is Some {
                    seq_insert_unique(
                        a.unique.manga_chapters,
                        IdChapter {
                            metadata_id: e.metadata_id,
                            chapter: e.manga_extra_information.unwrap().chapter.unwrap(),
                        },
                    )
                } else {
                    a.unique.manga_chapters
                }),
                manga_volumes: (if e.manga_extra_information is Some
                    && e.manga_extra_information.unwrap().volume is Some {
                    seq_insert_unique(
                        a.unique.manga_volumes,
                        IdVolume {
                            metadata_id: e.metadata_id,
                            volume: e.manga_extra_information.unwrap().volume.unwrap(),
                        },
                    )
                } else {
                    a.unique.manga_volumes
                }),
                ..a.unique
            },
        }
    } else if e.show_specifics is Some {
        let shows = seq_insert_unique(a.unique.shows, e.metadata_id);
        if e.show_extra_information is Some {
            let s = e.show_extra_information.unwrap();
            match spec_get_episode(e.show_specifics.unwrap().seasons@, s.season, s.episode) {
                Option::Some((season, ep)) => AccView {
                    counters: match ep.runtime {
                        Option::Some(r) => SummaryCounters {
                            shows_runtime: spec_sat_add_i64(a.counters.shows_runtime, r as int),
                            ..a.counters
                        },
                        Option::None => a.counters,
                    },
                    unique: UniqueView {
                        shows,
                        show_episodes: seq_insert_unique(
                            a.unique.show_episodes,
                            IdSeasonEpisode {
                                metadata_id: e.metadata_id,
                                season: season.season_number,
                                episode: ep.episode_number,
                            },
                        ),
                        show_seasons: seq_insert_unique(
                            a.unique.show_seasons,
                            IdSeason {
                                metadata_id: e.metadata_id,
                                season: season.season_number,
                            },
                        ),
                        ..a.unique
                    },
                },
                Option::None => AccView {
                    counters: a.counters,
                    unique: UniqueView { shows, ..a.unique },
                },
            }
        } else {
            AccView { counters: a.counters, unique: UniqueView { shows, ..a.unique } }
        }
    } else if e.podcast_specifics is Some {
        let podcasts = seq_insert_unique(a.unique.podcasts, e.metadata_id);
        if e.podcast_extra_information is Some {
            let s = e.podcast_extra_information.unwrap();
            match spec_episode_by_number(e.podcast_specifics.unwrap().episodes@, s.episode) {
                Option::Some(ep) => AccView {
                    counters: match ep.runtime {
                        Option::Some(r) => SummaryCounters {
                            podcasts_runtime: spec_sat_add_i64(
                                a.counters.podcasts_runtime,
                                r as int,
                            ),
                            ..a.counters
                        },
                        Option::None => a.counters,
                    },
                    unique: UniqueView {
                        podcasts,
                        podcast_episodes: seq_insert_unique(
                            a.unique.podcast_episodes,
                            IdEpisode { metadata_id: e.metadata_id, episode: s.episode },
                        ),
                        ..a.unique
                    },
                },
                Option::None => AccView {
                    counters: a.counters,
                    unique: UniqueView { podcasts, ..a.unique },
                },
            }
        } else {
            AccView { counters: a.counters, unique: UniqueView { podcasts, ..a.unique } }
        }
    } else if e.video_game_specifics is Some {
        AccView {
            counters: a.counters,
            unique: UniqueView {
                video_games: seq_insert_unique(a.unique.video_games, e.metadata_id),
                ..a.unique
            },
        }
    } else if e.visual_novel_specifics is Some {
        AccView {
            counters: match e.visual_novel_specifics.unwrap().length {
                Option::Some(l) => SummaryCounters {
                    visual_novels_runtime: spec_sat_add_i64(
                        a.counters.visual_novels_runtime,
                        l as int,
                    ),
                    ..a.counters
                },
                Option::None => a.counters,
            },
            unique: UniqueView {
                visual_novels: seq_insert_unique(a.unique.visual_novels, e.metadata_id),
                ..a.unique
            },
        }
    } else {
        a
    }
}

/// The fold of every event past the checkpoint, in order.
pub open spec fn spec_fold_seen(a: AccView, es: Seq<SeenEvent>, cp: Option<i64>) -> AccView
    decreases es.len(),
{
    if es.len() == 0 {
        a
    } else {
        let rest = spec_fold_seen(a, es.drop_last(), cp);
        if after_checkpoint(es.last().last_updated_on, cp) {
            spec_absorb_seen(rest, es.last())
        } else {
            rest
        }
    }
}

/// One per-entity running-total update the fold emits.
#[derive(Clone, Copy, Debug, PartialEq, Eq, Structural)]
pub struct UnitsUpdate {
    pub metadata_id: u64,
    pub units: i32,
}

/// The per-entity unit updates of every scanned event that consumed units,
/// in order.
pub open spec fn spec_units_list(es: Seq<SeenEvent>, cp: Option<i64>) -> Seq<UnitsUpdate>
    decreases es.len(),
{
    if es.len() == 0 {
        Seq::empty()
    } else {
        spec_units_list(es.drop_last(), cp) + (if after_checkpoint(es.last().last_updated_on, cp)
            && spec_units(es.last()) is Some {
            seq![
                UnitsUpdate {
                    metadata_id: es.last().metadata_id,
                    units: spec_units(es.last()).unwrap(),
                },
            ]
        } else {
            Seq::empty()
        })
    }
}

/// Count of reviews on media entities past the checkpoint.
pub open spec fn count_metadata_reviews(rs: Seq<ReviewEvent>, cp: Option<i64>) -> int
    decreases rs.len(),
{
    if rs.len() == 0 {
        0
    } else {
        count_metadata_reviews(rs.drop_last(), cp) + (if after_checkpoint(rs.last().posted_on, cp)
            && rs.last().on_metadata {
            1int
        } else {
            0int
        })
    }
}

/// Count of reviews on people past the checkpoint.
pub open spec fn count_person_reviews(rs: Seq<ReviewEvent>, cp: Option<i64>) -> int
    decreases rs.len(),
{
    if rs.len() == 0 {
        0
    } else {
        count_person_reviews(rs.drop_last(), cp) + (if after_checkpoint(rs.last().posted_on, cp)
            && rs.last().on_person {
            1int
        } else {
            0int
        })
    }
}

/// Count of measurements past the checkpoint.
pub open spec fn count_measurements(ms: Seq<MeasurementEvent>, cp: Option<i64>) -> int
    decreases ms.len(),
{
    if ms.len() == 0 {
        0
    } else {
        count_measurements(ms.drop_last(), cp) + (if after_checkpoint(ms.last().timestamp, cp) {
            1int
        } else {
            0int
        })
    }
}

/// Count of workouts past the checkpoint.
pub open spec fn count_workouts(ws: Seq<WorkoutEvent>, cp: Option<i64>) -> int
    decreases ws.len(),
{
    if ws.len() == 0 {
        0
    } else {
        count_workouts(ws.drop_last(), cp) + (if after_checkpoint(ws.last().end_time, cp) {
            1int
        } else {
            0int
        })
    }
}

/// Clamped sum of workout durations (seconds) past the checkpoint.
pub open spec fn sat_sum_workout_seconds(ws: Seq<WorkoutEvent>, cp: Option<i64>) -> i64
    decreases ws.len(),
{
    if ws.len() == 0 {
        0
    } else {
        let rest = sat_sum_workout_seconds(ws.drop_last(), cp);
        if after_checkpoint(ws.last().end_time, cp) {
            spec_sat_add_i64(rest, ws.last().duration as int)
        } else {
            rest
        }
    }
}

/// Clamped sum of workout weights (hundredths) past the checkpoint.
pub open spec fn sat_sum_workout_weight(ws: Seq<WorkoutEvent>, cp: Option<i64>) -> i64
    decreases ws.len(),
{
    if ws.len() == 0 {
        0
    } else {
        let rest = sat_sum_workout_weight(ws.drop_last(), cp);
        if after_checkpoint(ws.last().end_time, cp) {
            spec_sat_add_i64(rest, ws.last().weight.hundredths as int)
        } else {
            rest
        }
    }
}

/// Count of interactions carrying a metadata link past the checkpoint.
pub open spec fn count_inter_metadata(is: Seq<InteractionEvent>, cp: Option<i64>) -> int
    decreases is.len(),
{
    if is.len() == 0 {
        0
    } else {
        count_inter_metadata(is.drop_last(), cp) + (if after_checkpoint(
            is.last().last_updated_on,
            cp,
        ) && is.last().has_metadata {
            1int
        } else {
            0int
        })
    }
}

/// Count of interactions carrying a person link past the checkpoint.
pub open spec fn count_inter_person(is: Seq<InteractionEvent>, cp: Option<i64>) -> int
    decreases is.len(),
{
    if is.len() == 0 {
        0
    } else {
        count_inter_person(is.drop_last(), cp) + (if after_checkpoint(
            is.last().last_updated_on,
            cp,
        ) && is.last().has_person {
            1int
        } else {
            0int
        })
    }
}

/// Count of interactions carrying an exercise link past the checkpoint.
pub open spec fn count_inter_exercise(is: Seq<InteractionEvent>, cp: Option<i64>) -> int
    decreases is.len(),
{
    if is.len() == 0 {
        0
    } else {
        count_inter_exercise(is.drop_last(), cp) + (if after_checkpoint(
            is.last().last_updated_on,
            cp,
        ) && is.last().has_exercise {
            1int
        } else {
            0int
        })
    }
}

/// Workout seconds rendered as minutes with two decimal places; a
/// non-positive total counts as zero.
pub open spec fn spec_minutes_hundredths(secs: i64) -> i64 {
    if secs <= 0 {
        0
    } else if secs <= 92_233_720_368_547_758 {
        ((secs as int) * 100 / 60) as i64
    } else {
        i64::MAX
    }
}

fn minutes_hundredths(secs: i64) -> (r: i64)
    ensures
        r == spec_minutes_hundredths(secs),
{
    if secs <= 0 {
        0
    } else if secs <= 92_233_720_368_547_758 {
        secs * 100 / 60
    } else {
        i64::MAX
    }
}

/// The counters with the scalar counts of one run added.
pub open spec fn with_scalar_counts(
    c: SummaryCounters,
    ev: SummaryEvents,
    cp: Option<i64>,
) -> SummaryCounters {
    SummaryCounters {
        metadata_reviewed: spec_sat_add_u64(c.metadata_reviewed, count_metadata_reviews(ev.reviews@, cp)),
        people_reviewed: spec_sat_add_u64(c.people_reviewed, count_person_reviews(ev.reviews@, cp)),
        measurements_recorded: spec_sat_add_u64(
            c.measurements_recorded,
            count_measurements(ev.measurements@, cp),
        ),
        workouts_recorded: spec_sat_add_u64(c.workouts_recorded, count_workouts(ev.workouts@, cp)),
        metadata_interacted_with: spec_sat_add_u64(
            c.metadata_interacted_with,
            count_inter_metadata(ev.interactions@, cp),
        ),
        people_interacted_with: spec_sat_add_u64(
            c.people_interacted_with,
            count_inter_person(ev.interactions@, cp),
        ),
        exercises_interacted_with: spec_sat_add_u64(
            c.exercises_interacted_with,
            count_inter_exercise(ev.interactions@, cp),
        ),
        workouts_duration: FixedValue {
            hundredths: spec_sat_add_i64(
                c.workouts_duration.hundredths,
                spec_minutes_hundredths(sat_sum_workout_seconds(ev.workouts@, cp)) as int,
            ),
        },
        workouts_weight: FixedValue {
            hundredths: spec_sat_add_i64(
                c.workouts_weight.hundredths,
                sat_sum_workout_weight(ev.workouts@, cp) as int,
            ),
        },
        ..c
    }
}

/// The counters with the distinct counts re-derived from the unique sets.
pub open spec fn spec_finalize(a: AccView) -> SummaryCounters {
    SummaryCounters {
        books_read: a.unique.books.len() as u64,
        movies_watched: a.unique.movies.len() as u64,
        shows_watched: a.unique.shows.len() as u64,
        shows_watched_episodes: a.unique.show_episodes.len() as u64,
        shows_watched_seasons: a.unique.show_seasons.len() as u64,
        podcasts_played: a.unique.podcasts.len() as u64,
        podcasts_played_episodes: a.unique.podcast_episodes.len() as u64,
        anime_watched: a.unique.anime.len() as u64,
        anime_episodes: a.unique.anime_episodes.len() as u64,
        manga_read: a.unique.manga.len() as u64,
        manga_chapters: a.unique.manga_chapters.len() as u64,
        audio_books_played: a.unique.audio_books.len() as u64,
        visual_novels_played: a.unique.visual_novels.len() as u64,
        video_games_played: a.unique.video_games.len() as u64,
        ..a.counters
    }
}

/// The fold every summary run performs, before the distinct counts are
/// re-derived: the base is the previous summary, or zero for a forced run;
/// the scalar counts are added; then the seen stream is absorbed.
pub open spec fn spec_summary_result(
    prev: UserSummary,
    events: SummaryEvents,
    from_beginning: bool,
) -> AccView {
    let cp = if from_beginning {
        Option::<i64>::None
    } else {
        Option::Some(prev.calculated_on)
    };
    let base = if from_beginning {
        AccView { counters: zero_counters(), unique: empty_unique_view() }
    } else {
        AccView { counters: prev.counters, unique: unique_view(prev.unique) }
    };
    let with = AccView {
        counters: with_scalar_counts(base.counters, events, cp),
        unique: base.unique,
    };
    spec_fold_seen(with, events.seen@, cp)
}

/// One user's resumable summary.
#[derive(Clone, Debug)]
pub struct UserSummary {
    pub counters: SummaryCounters,
    pub unique: UniqueItems,
    pub calculated_on: i64,
    pub is_fresh: bool,
}

/// What one summary run produces: the summary to upsert, whether the
/// per-entity unit totals must be reset before applying the updates, and
/// those updates in scan order.
#[derive(Clone, Debug)]
pub struct SummaryCalculation {
    pub summary: UserSummary,
    pub reset_units_first: bool,
    pub units_updates: Vec<UnitsUpdate>,
}

/// A summary whose distinct counts agree with its unique sets, as every
/// summary this fold writes does.
pub open spec fn summary_consistent(s: UserSummary) -> bool {
    s.counters == spec_finalize(AccView { counters: s.counters, unique: unique_view(s.unique) })
}

proof fn lemma_review_counts_zero(rs: Seq<ReviewEvent>, cp: Option<i64>)
    requires
        forall|i: int| 0 <= i < rs.len() ==> !after_checkpoint(#[trigger] rs[i].posted_on, cp),
    ensures
        count_metadata_reviews(rs, cp) == 0,
        count_person_reviews(rs, cp) == 0,
    decreases rs.len(),
{
    if rs.len() > 0 {
        lemma_review_counts_zero(rs.drop_last(), cp);
    }
}

proof fn lemma_measurement_count_zero(ms: Seq<MeasurementEvent>, cp: Option<i64>)
    requires
        forall|i: int| 0 <= i < ms.len() ==> !after_checkpoint(#[trigger] ms[i].timestamp, cp),
    ensures
        count_measurements(ms, cp) == 0,
    decreases ms.len(),
{
    if ms.len() > 0 {
        lemma_measurement_count_zero(ms.drop_last(), cp);
    }
}

proof fn lemma_workout_counts_zero(ws: Seq<WorkoutEvent>, cp: Option<i64>)
    requires
        forall|i: int| 0 <= i < ws.len() ==> !after_checkpoint(#[trigger] ws[i].end_time, cp),
    ensures
        count_workouts(ws, cp) == 0,
        sat_sum_workout_seconds(ws, cp) == 0,
        sat_sum_workout_weight(ws, cp) == 0,
    decreases ws.len(),
{
    if ws.len() > 0 {
        lemma_workout_counts_zero(ws.drop_last(), cp);
    }
}

proof fn lemma_interaction_counts_zero(is: Seq<InteractionEvent>, cp: Option<i64>)
    requires
        forall|i: int|
            0 <= i < is.len() ==> !after_checkpoint(#[trigger] is[i].last_updated_on, cp),
    ensures
        count_inter_metadata(is, cp) == 0,
        count_inter_person(is, cp) == 0,
        count_inter_exercise(is, cp) == 0,
    decreases is.len(),
{
    if is.len() > 0 {
        lemma_interaction_counts_zero(is.drop_last(), cp);
    }
}

proof fn lemma_fold_seen_noop(a: AccView, es: Seq<SeenEvent>, cp: Option<i64>)
    requires
        forall|i: int| 0 <= i < es.len() ==> !after_checkpoint(#[trigger] es[i].last_updated_on, cp),
    ensures
        spec_fold_seen(a, es, cp) == a,
    decreases es.len(),
{
    if es.len() > 0 {
        lemma_fold_seen_noop(a, es.drop_last(), cp);
    }
}

/// Law: a non-forced summary run that scans no event newer than the
/// previous checkpoint leaves every counter and every unique set unchanged;
/// only the checkpoint advances.
pub proof fn lemma_unchanged_run_is_noop(prev: UserSummary, events: SummaryEvents)
    requires
        summary_consistent(prev),
        forall|i: int|
            0 <= i < events.seen@.len() ==> #[trigger] events.seen@[i].last_updated_on
                <= prev.calculated_on,
        forall|i: int|
            0 <= i < events.reviews@.len() ==> #[trigger] events.reviews@[i].posted_on
                <= prev.calculated_on,
        forall|i: int|
            0 <= i < events.measurements@.len() ==> #[trigger] events.measurements@[i].timestamp
                <= prev.calculated_on,
        forall|i: int|
            0 <= i < events.workouts@.len() ==> #[trigger] events.workouts@[i].end_time
                <= prev.calculated_on,
        forall|i: int|
            0 <= i < events.interactions@.len()
                ==> #[trigger] events.interactions@[i].last_updated_on <= prev.calculated_on,
    ensures
        ({
            let folded = spec_summary_result(prev, events, false);
            &&& spec_finalize(folded) == prev.counters
            &&& folded.unique == unique_view(prev.unique)
        }),
        spec_units_list(events.seen@, Option::Some(prev.calculated_on)) == Seq::<
            UnitsUpdate,
        >::empty(),
{
    let cp = Option::Some(prev.calculated_on);
    lemma_review_counts_zero(events.reviews@, cp);
    lemma_measurement_count_zero(events.measurements@, cp);
    lemma_workout_counts_zero(events.workouts@, cp);
    lemma_interaction_counts_zero(events.interactions@, cp);
    assert(with_scalar_counts(prev.counters, events, cp) == prev.counters);
    let with = AccView { counters: prev.counters, unique: unique_view(prev.unique) };
    lemma_fold_seen_noop(with, events.seen@, cp);
    lemma_units_list_empty(events.seen@, cp);
}

proof fn lemma_units_list_empty(es: Seq<SeenEvent>, cp: Option<i64>)
    requires
        forall|i: int| 0 <= i < es.len() ==> !after_checkpoint(#[trigger] es[i].last_updated_on, cp),
    ensures
        spec_units_list(es, cp) == Seq::<UnitsUpdate>::empty(),
    decreases es.len(),
{
    if es.len() > 0 {
        lemma_units_list_empty(es.drop_last(), cp);
        assert(spec_units_list(es, cp) =~= Seq::<UnitsUpdate>::empty());
    }
}

/// The distinct metadata ids of a history, in first-seen order, on top of
/// the ids already collected.
pub open spec fn distinct_ids_from(base: Seq<u64>, es: Seq<SeenEvent>) -> Seq<u64>
    decreases es.len(),
{
    if es.len() == 0 {
        base
    } else {
        seq_insert_unique(distinct_ids_from(base, es.drop_last()), es.last().metadata_id)
    }
}

/// The exact page total of a history of book events.
pub open spec fn sum_pages(es: Seq<SeenEvent>) -> int
    decreases es.len(),
{
    if es.len() == 0 {
        0
    } else {
        sum_pages(es.drop_last()) + (match es.last().book_specifics {
            Option::Some(b) => match b.pages {
                Option::Some(p) => p as int,
                Option::None => 0,
            },
            Option::None => 0,
        })
    }
}

/// Every event is a book event with a non-negative page count.
pub open spec fn all_book_events(es: Seq<SeenEvent>) -> bool {
    forall|i: int|
        0 <= i < es.len() ==> {
            let e = #[trigger] es[i];
            &&& e.audio_book_specifics is None
            &&& e.book_specifics is Some
            &&& e.book_specifics.unwrap().pages is Some
            &&& e.book_specifics.unwrap().pages.unwrap() >= 0
        }
}

proof fn lemma_sum_pages_nonneg(es: Seq<SeenEvent>)
    requires
        all_book_events(es),
    ensures
        sum_pages(es) >= 0,
    decreases es.len(),
{
    if es.len() > 0 {
        assert(all_book_events(es.drop_last()));
        lemma_sum_pages_nonneg(es.drop_last());
    }
}

proof fn lemma_fold_books(a: AccView, es: Seq<SeenEvent>)
    requires
        all_book_events(es),
        a.counters.books_pages >= 0,
        a.counters.books_pages + sum_pages(es) <= i64::MAX,
    ensures
        spec_fold_seen(a, es, Option::None).unique.books == distinct_ids_from(
            a.unique.books,
            es,
        ),
        spec_fold_seen(a, es, Option::None).counters.books_pages == a.counters.books_pages
            + sum_pages(es),
    decreases es.len(),
{
    if es.len() > 0 {
        assert(all_book_events(es.drop_last()));
        lemma_sum_pages_nonneg(es.drop_last());
        assert(sum_pages(es) >= sum_pages(es.drop_last()));
        lemma_fold_books(a, es.drop_last());
    }
}

/// Law: a forced recompute over a history of book events alone yields the
/// number of distinct books as `books_read` and their exact page total as
/// `books_pages`, the same values a from-scratch scan computes.
pub proof fn lemma_forced_book_recompute(prev: UserSummary, events: SummaryEvents)
    requires
        all_book_events(events.seen@),
        sum_pages(events.seen@) <= i64::MAX,
    ensures
        ({
            let folded = spec_summary_result(prev, events, true);
            &&& folded.unique.books == distinct_ids_from(Seq::empty(), events.seen@)
            &&& spec_finalize(folded).books_read == distinct_ids_from(
                Seq::empty(),
                events.seen@,
            ).len() as u64
            &&& folded.counters.books_pages == sum_pages(events.seen@)
        }),
{
    let cp = Option::<i64>::None;
    let base = AccView { counters: zero_counters(), unique: empty_unique_view() };
    let with = AccView {
        counters: with_scalar_counts(base.counters, events, cp),
        unique: base.unique,
    };
    assert(with.counters.books_pages == 0);
    assert(with.unique.books =~= Seq::<u64>::empty());
    lemma_fold_books(with, events.seen@);
}

/// Absorb one event into the counters and unique sets and report the units
/// it consumed.
#[verifier::rlimit(100)]
fn absorb_seen(counters: &mut SummaryCounters, unique: &mut UniqueItems, e: &SeenEvent) -> (units:
    Option<i32>)
    ensures
        ({
            let a1 = spec_absorb_seen(
                AccView { counters: *old(counters), unique: unique_view(*old(unique)) },
                *e,
            );
            &&& *final(counters) == a1.counters
            &&& unique_view(*final(unique)) == a1.unique
            &&& units == spec_units(*e)
        }),
{
    if let Some(item) = &e.audio_book_specifics {
        insert_id(&mut unique.audio_books, e.metadata_id);
        if let Some(r) = item.runtime {
            counters.audio_books_runtime = sat_add_i64(counters.audio_books_runtime, r as i64);
        }
        item.runtime
    } else if let Some(item) = &e.book_specifics {
        insert_id(&mut unique.books, e.metadata_id);
        if let Some(p) = item.pages {
            counters.books_pages = sat_add_i64(counters.books_pages, p as i64);
        }
        item.pages
    } else if let Some(item) = &e.movie_specifics {
        insert_id(&mut unique.movies, e.metadata_id);
        if let Some(r) = item.runtime {
            counters.movies_runtime = sat_add_i64(counters.movies_runtime, r as i64);
        }
        item.runtime
    } else if e.anime_specifics.is_some() {
        insert_id(&mut unique.anime, e.metadata_id);
        let mut units: Option<i32> = None;
        if let Some(s) = &e.anime_extra_information {
            if let Some(ep) = s.episode {
                insert_id_episode(
                    &mut unique.anime_episodes,
                    IdEpisode { metadata_id: e.metadata_id, episode: ep },
                );
                units = Some(1);
            }
        }
        units
    } else if e.manga_specifics.is_some() {
        insert_id(&mut unique.manga, e.metadata_id);
        let mut units: Option<i32> = None;
        if let Some(s) = &e.manga_extra_information {
            units = Some(1);
            if let Some(c) = s.chapter {
                insert_id_chapter(
                    &mut unique.manga_chapters,
                    IdChapter { metadata_id: e.metadata_id, chapter: c },
                );
            }
            if let Some(v) = s.volume {
                insert_id_volume(
                    &mut unique.manga_volumes,
                    IdVolume { metadata_id: e.metadata_id, volume: v },
                );
            }
        }
        units
    } else if let Some(item) = &e.show_specifics {
        insert_id(&mut unique.shows, e.metadata_id);
        let mut units: Option<i32> = None;
        if let Some(s) = &e.show_extra_information {
            if let Some((season, ep)) = item.get_episode(s.season, s.episode) {
                if let Some(r) = ep.runtime {
                    counters.shows_runtime = sat_add_i64(counters.shows_runtime, r as i64);
                    units = Some(r);
                }
                let season_number = season.season_number;
                let episode_number = ep.episode_number;
                insert_id_season_episode(
                    &mut unique.show_episodes,
                    IdSeasonEpisode {
                        metadata_id: e.metadata_id,
                        season: season_number,
                        episode: episode_number,
                    },
                );
                insert_id_season(
                    &mut unique.show_seasons,
                    IdSeason { metadata_id: e.metadata_id, season: season_number },
                );
            }
        }
        units
    } else if let Some(item) = &e.podcast_specifics {
        insert_id(&mut unique.podcasts, e.metadata_id);
        let mut units: Option<i32> = None;
        if let Some(s) = &e.podcast_extra_information {
            if let Some(ep) = item.episode_by_number(s.episode) {
                if let Some(r) = ep.runtime {
                    counters.podcasts_runtime = sat_add_i64(counters.podcasts_runtime, r as i64);
                    units = Some(r);
                }
                insert_id_episode(
                    &mut unique.podcast_episodes,
                    IdEpisode { metadata_id: e.metadata_id, episode: s.episode },
                );
            }
        }
        units
    } else if e.video_game_specifics.is_some() {
        insert_id(&mut unique.video_games, e.metadata_id);
        None
    } else if let Some(item) = &e.visual_novel_specifics {
        insert_id(&mut unique.visual_novels, e.metadata_id);
        if let Some(l) = item.length {
            counters.visual_novels_runtime = sat_add_i64(counters.visual_novels_runtime, l as i64);
        }
        item.length
    } else {
        None
    }
}

/// Run one summary fold. A forced run (`from_beginning`) discards the
/// previous summary, scans everything and asks the caller to reset the
/// per-entity unit totals first; otherwise only events strictly newer than
/// the previous checkpoint are scanned and added on top.
pub fn calculate_user_summary(
    prev: UserSummary,
    events: &SummaryEvents,
    from_beginning: bool,
    now: i64,
) -> (r: SummaryCalculation)
    ensures
        r.reset_units_first == from_beginning,
        r.summary.is_fresh == from_beginning,
        r.summary.calculated_on == now,
        ({
            let folded = spec_summary_result(prev, *events, from_beginning);
            &&& r.summary.counters == spec_finalize(folded)
            &&& unique_view(r.summary.unique) == folded.unique
        }),
        r.units_updates@ == spec_units_list(
            events.seen@,
            if from_beginning {
                Option::<i64>::None
            } else {
                Option::Some(prev.calculated_on)
            },
        ),
{
    let cp: Option<i64> = if from_beginning {
        None
    } else {
        Some(prev.calculated_on)
    };
    let mut counters: SummaryCounters;
    let mut unique: UniqueItems;
    if from_beginning {
        counters = counters_zero();
        unique = unique_items_new();
    } else {
        counters = prev.counters;
        unique = prev.unique;
    }
    let ghost base_counters = counters;
    let ghost base_unique_view = unique_view(unique);

    // Scalar counts.
    let mut metadata_reviews: usize = 0;
    let mut person_reviews: usize = 0;
    let mut i: usize = 0;
    proof {
        assert(events.reviews@.take(0) =~= Seq::<ReviewEvent>::empty());
    }
    while i < events.reviews.len()
        invariant
            0 <= i <= events.reviews@.len(),
            metadata_reviews <= i,
            person_reviews <= i,
            metadata_reviews == count_metadata_reviews(events.reviews@.take(i as int), cp),
            person_reviews == count_person_reviews(events.reviews@.take(i as int), cp),
        decreases events.reviews@.len() - i,
    {
        proof {
            assert(events.reviews@.take(i + 1).drop_last() =~= events.reviews@.take(i as int));
            assert(events.reviews@.take(i + 1).last() == events.reviews@[i as int]);
        }
        let ev = &events.reviews[i];
        if is_after_checkpoint(ev.posted_on, &cp) {
            if ev.on_metadata {
                metadata_reviews += 1;
            }
            if ev.on_person {
                person_reviews += 1;
            }
        }
        i += 1;
    }
    proof {
        assert(events.reviews@.take(events.reviews@.len() as int) =~= events.reviews@);
    }

    let mut measurements: usize = 0;
    let mut i: usize = 0;
    proof {
        assert(events.measurements@.take(0) =~= Seq::<MeasurementEvent>::empty());
    }
    while i < events.measurements.len()
        invariant
            0 <= i <= events.measurements@.len(),
            measurements <= i,
            measurements == count_measurements(events.measurements@.take(i as int), cp),
        decreases events.measurements@.len() - i,
    {
        proof {
            assert(events.measurements@.take(i + 1).drop_last() =~= events.measurements@.take(
                i as int,
            ));
            assert(events.measurements@.take(i + 1).last() == events.measurements@[i as int]);
        }
        if is_after_checkpoint(events.measurements[i].timestamp, &cp) {
            measurements += 1;
        }
        i += 1;
    }
    proof {
        assert(events.measurements@.take(events.measurements@.len() as int)
            =~= events.measurements@);
    }

    let mut workouts: usize = 0;
    let mut workout_seconds: i64 = 0;
    let mut workout_weight: i64 = 0;
    let mut i: usize = 0;
    proof {
        assert(events.workouts@.take(0) =~= Seq::<WorkoutEvent>::empty());
    }
    while i < events.workouts.len()
        invariant
            0 <= i <= events.workouts@.len(),
            workouts <= i,
            workouts == count_workouts(events.workouts@.take(i as int), cp),
            workout_seconds == sat_sum_workout_seconds(events.workouts@.take(i as int), cp),
            workout_weight == sat_sum_workout_weight(events.workouts@.take(i as int), cp),
        decreases events.workouts@.len() - i,
    {
        proof {
            assert(events.workouts@.take(i + 1).drop_last() =~= events.workouts@.take(i as int));
            assert(events.workouts@.take(i + 1).last() == events.workouts@[i as int]);
        }
        let ev = &events.workouts[i];
        if is_after_checkpoint(ev.end_time, &cp) {
            workouts += 1;
            workout_seconds = sat_add_i64(workout_seconds, ev.duration as i64);
            workout_weight = sat_add_i64(workout_weight, ev.weight.hundredths);
        }
        i += 1;
    }
    proof {
        assert(events.workouts@.take(events.workouts@.len() as int) =~= events.workouts@);
    }

    let mut inter_metadata: usize = 0;
    let mut inter_person: usize = 0;
    let mut inter_exercise: usize = 0;
    let mut i: usize = 0;
    proof {
        assert(events.interactions@.take(0) =~= Seq::<InteractionEvent>::empty());
    }
    while i < events.interactions.len()
        invariant
            0 <= i <= events.interactions@.len(),
            inter_metadata <= i,
            inter_person <= i,
            inter_exercise <= i,
            inter_metadata == count_inter_metadata(events.interactions@.take(i as int), cp),
            inter_person == count_inter_person(events.interactions@.take(i as int), cp),
            inter_exercise == count_inter_exercise(events.interactions@.take(i as int), cp),
        decreases events.interactions@.len() - i,
    {
        proof {
            assert(events.interactions@.take(i + 1).drop_last() =~= events.interactions@.take(
                i as int,
            ));
            assert(events.interactions@.take(i + 1).last() == events.interactions@[i as int]);
        }
        let ev = &events.interactions[i];
        if is_after_checkpoint(ev.last_updated_on, &cp) {
            if ev.has_metadata {
                inter_metadata += 1;
            }
            if ev.has_person {
                inter_person += 1;
            }
            if ev.has_exercise {
                inter_exercise += 1;
            }
        }
        i += 1;
    }
    proof {
        assert(events.interactions@.take(events.interactions@.len() as int)
            =~= events.interactions@);
    }

    counters.metadata_reviewed = sat_add_u64(counters.metadata_reviewed, metadata_reviews as u64);
    counters.people_reviewed = sat_add_u64(counters.people_reviewed, person_reviews as u64);
    counters.measurements_recorded = sat_add_u64(counters.measurements_recorded, measurements as u64);
    counters.workouts_recorded = sat_add_u64(counters.workouts_recorded, workouts as u64);
    counters.metadata_interacted_with = sat_add_u64(
        counters.metadata_interacted_with,
        inter_metadata as u64,
    );
    counters.people_interacted_with = sat_add_u64(
        counters.people_interacted_with,
        inter_person as u64,
    );
    counters.exercises_interacted_with = sat_add_u64(
        counters.exercises_interacted_with,
        inter_exercise as u64,
    );
    counters.workouts_duration = FixedValue {
        hundredths: sat_add_i64(
            counters.workouts_duration.hundredths,
            minutes_hundredths(workout_seconds),
        ),
    };
    counters.workouts_weight = FixedValue {
        hundredths: sat_add_i64(counters.workouts_weight.hundredths, workout_weight),
    };
    proof {
        assert(counters == with_scalar_counts(base_counters, *events, cp));
    }
    let ghost start = AccView {
        counters: with_scalar_counts(base_counters, *events, cp),
        unique: base_unique_view,
    };

    // The seen-stream fold, one event at a time.
    let mut units_updates: Vec<UnitsUpdate> = Vec::new();
    let mut i: usize = 0;
    proof {
        assert(events.seen@.take(0) =~= Seq::<SeenEvent>::empty());
        assert(spec_units_list(events.seen@.take(0), cp) =~= Seq::<UnitsUpdate>::empty());
    }
    while i < events.seen.len()
        invariant
            0 <= i <= events.seen@.len(),
            (AccView { counters, unique: unique_view(unique) }) == spec_fold_seen(
                start,
                events.seen@.take(i as int),
                cp,
            ),
            units_updates@ == spec_units_list(events.seen@.take(i as int), cp),
        decreases events.seen@.len() - i,
    {
        proof {
            assert(events.seen@.take(i + 1).drop_last() =~= events.seen@.take(i as int));
            assert(events.seen@.take(i + 1).last() == events.seen@[i as int]);
        }
        let ev = &events.seen[i];
        if is_after_checkpoint(ev.last_updated_on, &cp) {
            let units = absorb_seen(&mut counters, &mut unique, ev);
            if let Some(u) = units {
                units_updates.push(UnitsUpdate { metadata_id: ev.metadata_id, units: u });
            }
            proof {
                assert(units_updates@ =~= spec_units_list(events.seen@.take(i + 1), cp));
            }
        } else {
            proof {
                assert(units_updates@ =~= spec_units_list(events.seen@.take(i + 1), cp));
            }
        }
        i += 1;
    }
    proof {
        assert(events.seen@.take(events.seen@.len() as int) =~= events.seen@);
    }

    // Re-derive the distinct counts from the unique sets.
    counters.books_read = unique.books.len() as u64;
    counters.movies_watched = unique.movies.len() as u64;
    counters.shows_watched = unique.shows.len() as u64;
    counters.shows_watched_episodes = unique.show_episodes.len() as u64;
    counters.shows_watched_seasons = unique.show_seasons.len() as u64;
    counters.podcasts_played = unique.podcasts.len() as u64;
    counters.podcasts_played_episodes = unique.podcast_episodes.len() as u64;
    counters.anime_watched = unique.anime.len() as u64;
    counters.anime_episodes = unique.anime_episodes.len() as u64;
    counters.manga_read = unique.manga.len() as u64;
    counters.manga_chapters = unique.manga_chapters.len() as u64;
    counters.audio_books_played = unique.audio_books.len() as u64;
    counters.visual_novels_played = unique.visual_novels.len() as u64;
    counters.video_games_played = unique.video_games.len() as u64;

    SummaryCalculation {
        summary: UserSummary { counters, unique, calculated_on: now, is_fresh: from_beginning },
        reset_units_first: from_beginning,
        units_updates,
    }
}

} // verus!
