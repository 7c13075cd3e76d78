//! The "fully consumed" predicate: continuous media are finished once any
//! session completed; episodic media are finished exactly when every
//! expected episode coordinate has been seen the same non-zero number of
//! times, so that rewatching never flags completion early.

use vstd::prelude::*;
use crate::FixedValue;
use crate::types::{MediaDetails, MediaLot, SeenRecord, SeenState, ShowSeason};

verus! {

/// The coordinate one seen record occupies, by media kind.
#[derive(Clone, Copy, Debug, PartialEq, Eq, Structural)]
pub enum EpisodeKey {
    Show { season: i32, episode: i32 },
    Podcast { episode: i32 },
    Anime { episode: i32 },
    Manga { chapter: FixedValue },
}

/// The coordinate a seen record reports, read in a fixed precedence.
pub open spec fn spec_seen_key(r: SeenRecord) -> Option<EpisodeKey> {
    if r.show_extra_information is Some {
        let s = r.show_extra_information.unwrap();
        Option::Some(EpisodeKey::Show { season: s.season, episode: s.episode })
    } else if r.podcast_extra_information is Some {
        let p = r.podcast_extra_information.unwrap();
        Option::Some(EpisodeKey::Podcast { episode: p.episode })
    } else if r.anime_extra_information is Some && r.anime_extra_information.unwrap().episode
        is Some {
        Option::Some(
            EpisodeKey::Anime { episode: r.anime_extra_information.unwrap().episode.unwrap() },
        )
    } else if r.manga_extra_information is Some && r.manga_extra_information.unwrap().chapter
        is Some {
        Option::Some(
            EpisodeKey::Manga { chapter: r.manga_extra_information.unwrap().chapter.unwrap() },
        )
    } else {
        Option::None
    }
}

/// Executable twin of [`spec_seen_key`].
pub fn seen_key(r: &SeenRecord) -> (k: Option<EpisodeKey>)
    ensures
        k == spec_seen_key(*r),
{
    if let Some(s) = &r.show_extra_information {
        Some(EpisodeKey::Show { season: s.season, episode: s.episode })
    } else if let Some(p) = &r.podcast_extra_information {
        Some(EpisodeKey::Podcast { episode: p.episode })
    } else if let Some(a) = &r.anime_extra_information {
        match a.episode {
            Some(e) => Some(EpisodeKey::Anime { episode: e }),
            None => seen_key_manga(r),
        }
    } else {
        seen_key_manga(r)
    }
}

fn seen_key_manga(r: &SeenRecord) -> (k: Option<EpisodeKey>)
    requires
        r.show_extra_information is None,
        r.podcast_extra_information is None,
        r.anime_extra_information is Some ==> r.anime_extra_information.unwrap().episode is None,
    ensures
        k == spec_seen_key(*r),
{
    if let Some(m) = &r.manga_extra_information {
        match m.chapter {
            Some(c) => Some(EpisodeKey::Manga { chapter: c }),
            None => None,
        }
    } else {
        None
    }
}

/// Whether a season name is on the allow-list of special seasons, which are
/// left out of the expected coordinates.
pub open spec fn spec_is_special_season(name: Seq<char>, specials: Seq<String>) -> bool {
    exists|i: int| 0 <= i < specials.len() && specials[i]@ == name
}

/// Executable twin of [`spec_is_special_season`].
pub fn is_special_season(name: &String, specials: &Vec<String>) -> (r: bool)
    ensures
        r == spec_is_special_season(name@, specials@),
{
    let mut i: usize = 0;
    while i < specials.len()
        invariant
            0 <= i <= specials@.len(),
            forall|a: int| 0 <= a < i ==> specials@[a]@ != name@,
        decreases specials@.len() - i,
    {
        if specials[i].eq(name) {
            return true;
        }
        i += 1;
    }
    false
}

/// The expected coordinates of one show season.
pub open spec fn season_keys(s: ShowSeason) -> Seq<EpisodeKey> {
    Seq::new(
        s.episodes@.len(),
        |j: int|
            EpisodeKey::Show {
                season: s.season_number,
                episode: s.episodes@[j].episode_number,
            },
    )
}

/// The expected coordinates of a show: every episode of every season whose
/// name is not on the special allow-list.
pub open spec fn show_keys(seasons: Seq<ShowSeason>, specials: Seq<String>) -> Seq<EpisodeKey>
    decreases seasons.len(),
{
    if seasons.len() == 0 {
        Seq::empty()
    } else {
        show_keys(seasons.drop_last(), specials) + (if spec_is_special_season(
            seasons.last().name@,
            specials,
        ) {
            Seq::empty()
        } else {
            season_keys(seasons.last())
        })
    }
}

/// The full set of expected episode coordinates of a media entity, read
/// from whichever per-kind specifics its snapshot carries.
pub open spec fn spec_expected_keys(meta: MediaDetails, specials: Seq<String>) -> Seq<EpisodeKey> {
    if meta.show_specifics is Some {
        show_keys(meta.show_specifics.unwrap().seasons@, specials)
    } else if meta.podcast_specifics is Some {
        let eps = meta.podcast_specifics.unwrap().episodes@;
        Seq::new(eps.len(), |j: int| EpisodeKey::Podcast { episode: eps[j].number })
    } else if meta.anime_specifics is Some && meta.anime_specifics.unwrap().episodes is Some {
        let n = meta.anime_specifics.unwrap().episodes.unwrap();
        Seq::new(
            if n >= 0 {
                n as nat
            } else {
                0
            },
            |j: int| EpisodeKey::Anime { episode: (j + 1) as i32 },
        )
    } else if meta.manga_specifics is Some && meta.manga_specifics.unwrap().chapters is Some {
        let c = meta.manga_specifics.unwrap().chapters.unwrap();
        let n: int = if c.hundredths >= 0 {
            c.hundredths as int / 100
        } else {
            0
        };
        Seq::new(
            n as nat,
            |j: int| EpisodeKey::Manga { chapter: FixedValue { hundredths: ((j + 1) * 100) as i64 } },
        )
    } else {
        Seq::empty()
    }
}

/// The anime episode count the expected coordinates are built from.
pub open spec fn spec_anime_count(meta: MediaDetails) -> Option<i32> {
    if meta.anime_specifics is Some && meta.anime_specifics.unwrap().episodes is Some {
        let n = meta.anime_specifics.unwrap().episodes.unwrap();
        Option::Some(
            if n >= 0 {
                n
            } else {
                0
            },
        )
    } else {
        Option::None
    }
}

/// The manga chapter count the expected coordinates are built from: the
/// whole part of the reported chapter number.
pub open spec fn spec_manga_count(meta: MediaDetails) -> Option<i64> {
    if meta.manga_specifics is Some && meta.manga_specifics.unwrap().chapters is Some {
        let c = meta.manga_specifics.unwrap().chapters.unwrap();
        Option::Some(
            if c.hundredths >= 0 {
                (c.hundredths as int / 100) as i64
            } else {
                0
            },
        )
    } else {
        Option::None
    }
}

/// How many records of the history sit on one coordinate.
pub open spec fn key_count(h: Seq<SeenRecord>, k: EpisodeKey) -> nat
    decreases h.len(),
{
    if h.len() == 0 {
        0
    } else {
        key_count(h.drop_last(), k) + (if spec_seen_key(h.last()) == Option::Some(k) {
            1nat
        } else {
            0nat
        })
    }
}

proof fn lemma_key_count_take_step(h: Seq<SeenRecord>, k: EpisodeKey, i: int)
    requires
        0 <= i < h.len(),
    ensures
        key_count(h.take(i + 1), k) == key_count(h.take(i), k) + (if spec_seen_key(h[i])
            == Option::Some(k) {
            1nat
        } else {
            0nat
        }),
{
    assert(h.take(i + 1).drop_last() =~= h.take(i));
    assert(h.take(i + 1).last() == h[i]);
}

fn count_key(history: &Vec<SeenRecord>, k: EpisodeKey) -> (c: usize)
    ensures
        c == key_count(history@, k),
{
    let mut c: usize = 0;
    let mut i: usize = 0;
    proof {
        assert(history@.take(0) =~= Seq::<SeenRecord>::empty());
    }
    while i < history.len()
        invariant
            0 <= i <= history@.len(),
            c <= i,
            c == key_count(history@.take(i as int), k),
        decreases history@.len() - i,
    {
        proof {
            lemma_key_count_take_step(history@, k, i as int);
        }
        let rk = seen_key(&history[i]);
        if let Some(rk) = rk {
            if rk == k {
                c += 1;
            }
        }
        i += 1;
    }
    proof {
        assert(history@.take(history@.len() as int) =~= history@);
    }
    c
}

/// Whether the user has fully consumed the entity. For continuous media:
/// some session completed. For episodic media: either nothing is expected
/// yet, or every expected coordinate was seen the same non-zero number of
/// times.
pub open spec fn spec_is_finished(
    lot: MediaLot,
    meta: MediaDetails,
    history: Seq<SeenRecord>,
    specials: Seq<String>,
) -> bool {
    if lot.spec_is_episodic() {
        let keys = spec_expected_keys(meta, specials);
        keys.len() == 0 || {
            &&& key_count(history, keys[0]) != 0
            &&& forall|i: int|
                0 <= i < keys.len() ==> key_count(history, #[trigger] keys[i]) == key_count(
                    history,
                    keys[0],
                )
        }
    } else {
        exists|i: int| 0 <= i < history.len() && history[i].state == SeenState::Completed
    }
}

/// Build the expected coordinates as an executable vector.
fn expected_keys(meta: &MediaDetails, specials: &Vec<String>) -> (keys: Vec<EpisodeKey>)
    ensures
        keys@ == spec_expected_keys(*meta, specials@),
{
    let mut keys: Vec<EpisodeKey> = Vec::new();
    if let Some(show) = &meta.show_specifics {
        let mut i: usize = 0;
        proof {
            assert(show_keys(show.seasons@.take(0), specials@) =~= Seq::<EpisodeKey>::empty());
        }
        while i < show.seasons.len()
            invariant
                0 <= i <= show.seasons@.len(),
                meta.show_specifics == Option::Some(*show),
                keys@ == show_keys(show.seasons@.take(i as int), specials@),
            decreases show.seasons@.len() - i,
        {
            let season = &show.seasons[i];
            proof {
                assert(show.seasons@.take(i + 1).drop_last() =~= show.seasons@.take(i as int));
                assert(show.seasons@.take(i + 1).last() == show.seasons@[i as int]);
            }
            if !is_special_season(&season.name, specials) {
                let mut j: usize = 0;
                while j < season.episodes.len()
                    invariant
                        0 <= j <= season.episodes@.len(),
                        0 <= i < show.seasons@.len(),
                        season == show.seasons@[i as int],
                        !spec_is_special_season(season.name@, specials@),
                        keys@ == show_keys(show.seasons@.take(i as int), specials@) + season_keys(
                            show.seasons@[i as int],
                        ).take(j as int),
                    decreases season.episodes@.len() - j,
                {
                    keys.push(
                        EpisodeKey::Show {
                            season: season.season_number,
                            episode: season.episodes[j].episode_number,
                        },
                    );
                    proof {
                        assert(season_keys(show.seasons@[i as int]).take(j + 1)
                            =~= season_keys(show.seasons@[i as int]).take(j as int).push(
                            season_keys(show.seasons@[i as int])[j as int],
                        ));
                        assert(keys@ =~= show_keys(show.seasons@.take(i as int), specials@)
                            + season_keys(show.seasons@[i as int]).take(j + 1));
                    }
                    j += 1;
                }
                proof {
                    assert(season_keys(show.seasons@[i as int]).take(
                        season.episodes@.len() as int,
                    ) =~= season_keys(show.seasons@[i as int]));
                    assert(keys@ =~= show_keys(show.seasons@.take(i + 1), specials@));
                }
            } else {
                proof {
                    assert(keys@ =~= show_keys(show.seasons@.take(i + 1), specials@));
                }
            }
            i += 1;
        }
        proof {
            assert(show.seasons@.take(show.seasons@.len() as int) =~= show.seasons@);
        }
    } else if let Some(podcast) = &meta.podcast_specifics {
        let ghost target = spec_expected_keys(*meta, specials@);
        let mut j: usize = 0;
        while j < podcast.episodes.len()
            invariant
                0 <= j <= podcast.episodes@.len(),
                meta.show_specifics is None,
                meta.podcast_specifics == Option::Some(*podcast),
                target == spec_expected_keys(*meta, specials@),
                target.len() == podcast.episodes@.len(),
                keys@ == target.take(j as int),
            decreases podcast.episodes@.len() - j,
        {
            keys.push(EpisodeKey::Podcast { episode: podcast.episodes[j].number });
            proof {
                assert(keys@ =~= target.take(j + 1));
            }
            j += 1;
        }
        proof {
            assert(keys@ =~= target);
        }
    } else if anime_episode_count(meta).is_some() {
        let n = anime_episode_count(meta).unwrap();
        let ghost target = spec_expected_keys(*meta, specials@);
        let mut j: i32 = 0;
        while j < n
            invariant
                0 <= j <= n,
                spec_anime_count(*meta) == Option::Some(n),
                meta.show_specifics is None,
                meta.podcast_specifics is None,
                target == spec_expected_keys(*meta, specials@),
                target.len() == n as nat,
                keys@ == target.take(j as int),
            decreases n - j,
        {
            keys.push(EpisodeKey::Anime { episode: j + 1 });
            proof {
                assert(keys@ =~= target.take(j + 1));
            }
            j += 1;
        }
        proof {
            assert(keys@ =~= target);
        }
    } else if let Some(n) = manga_chapter_count(meta) {
        let ghost target = spec_expected_keys(*meta, specials@);
        let mut j: i64 = 0;
        while j < n
            invariant
                0 <= j <= n,
                n <= 92_233_720_368_547_758,
                spec_manga_count(*meta) == Option::Some(n),
                meta.show_specifics is None,
                meta.podcast_specifics is None,
                spec_anime_count(*meta) is None,
                target == spec_expected_keys(*meta, specials@),
                target.len() == n as nat,
                target == Seq::new(
                    n as nat,
                    |i: int|
                        EpisodeKey::Manga {
                            chapter: FixedValue { hundredths: ((i + 1) * 100) as i64 },
                        },
                ),
                keys@ == target.take(j as int),
            decreases n - j,
        {
            keys.push(EpisodeKey::Manga { chapter: FixedValue { hundredths: (j + 1) * 100 } });
            proof {
                assert(keys@ =~= target.take(j + 1));
            }
            j += 1;
        }
        proof {
            assert(keys@ =~= target);
        }
    }
    keys
}

/// Executable twin of [`spec_anime_count`].
fn anime_episode_count(meta: &MediaDetails) -> (r: Option<i32>)
    ensures
        r == spec_anime_count(*meta),
{
    match &meta.anime_specifics {
        Some(a) => match a.episodes {
            Some(n) => Some(if n >= 0 { n } else { 0 }),
            None => None,
        },
        None => None,
    }
}

/// Executable twin of [`spec_manga_count`].
fn manga_chapter_count(meta: &MediaDetails) -> (r: Option<i64>)
    ensures
        r == spec_manga_count(*meta),
        r is Some ==> 0 <= r.unwrap() <= 92_233_720_368_547_758,
{
    match &meta.manga_specifics {
        Some(m) => match m.chapters {
            Some(c) => Some(
                if c.hundredths >= 0 {
                    c.hundredths / 100
                } else {
                    0
                },
            ),
            None => None,
        },
        None => None,
    }
}

/// Decide whether the user has fully consumed the entity.
pub fn is_metadata_finished_by_user(
    lot: MediaLot,
    meta: &MediaDetails,
    history: &Vec<SeenRecord>,
    specials: &Vec<String>,
) -> (r: bool)
    ensures
        r == spec_is_finished(lot, *meta, history@, specials@),
{
    if lot.is_episodic() {
        let keys = expected_keys(meta, specials);
        if keys.len() == 0 {
            return true;
        }
        let c0 = count_key(history, keys[0]);
        if c0 == 0 {
            proof {
                assert(key_count(history@, spec_expected_keys(*meta, specials@)[0]) == 0);
                assert(!spec_is_finished(lot, *meta, history@, specials@));
            }
            return false;
        }
        let mut i: usize = 0;
        while i < keys.len()
            invariant
                0 <= i <= keys@.len(),
                lot.spec_is_episodic(),
                c0 != 0,
                keys@ == spec_expected_keys(*meta, specials@),
                keys@.len() > 0,
                c0 == key_count(history@, keys@[0]),
                forall|a: int|
                    0 <= a < i ==> key_count(history@, #[trigger] keys@[a]) == c0,
            decreases keys@.len() - i,
        {
            let c = count_key(history, keys[i]);
            if c != c0 {
                proof {
                    assert(key_count(history@, keys@[i as int]) != key_count(
                        history@,
                        keys@[0],
                    ));
                }
                return false;
            }
            i += 1;
        }
        true
    } else {
        let mut i: usize = 0;
        while i < history.len()
            invariant
                0 <= i <= history@.len(),
                !lot.spec_is_episodic(),
                forall|a: int| 0 <= a < i ==> history@[a].state != SeenState::Completed,
            decreases history@.len() - i,
        {
            if matches!(history[i].state, SeenState::Completed) {
                proof {
                    assert(!lot.spec_is_episodic());
                    assert(exists|j: int|
                        0 <= j < history@.len() && history@[j].state == SeenState::Completed) by {
                        assert((i as int) < history@.len() && history@[i as int].state
                            == SeenState::Completed);
                    }
                }
                return true;
            }
            i += 1;
        }
        false
    }
}

} // verus!
