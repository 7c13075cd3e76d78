//! Metadata refresh diffing: compare the stored snapshot of an entity with
//! a freshly fetched one, field by field, and emit one typed change notice
//! per observed difference. A season-count mismatch short-circuits to a
//! single notice for that pair instead of per-episode diffing, and a pair
//! of special-named seasons is skipped entirely.

use vstd::prelude::*;
use crate::FixedValue;
use crate::progress::opt_str_eq;
use crate::types::{MediaDetails, PodcastEpisode, ShowEpisode, ShowSeason};
use crate::finished::spec_is_special_season;

verus! {

/// The kind of an upstream change, as notification preferences filter it.
#[derive(Clone, Copy, Debug, PartialEq, Eq, Structural)]
pub enum MediaStateChanged {
    MetadataStatusChanged,
    MetadataReleaseDateChanged,
    MetadataNumberOfSeasonsChanged,
    MetadataEpisodeReleased,
    MetadataEpisodeNameChanged,
    MetadataEpisodeImagesChanged,
    MetadataChaptersOrEpisodesChanged,
}

/// What changed, with the values a rendered message would cite.
#[derive(Clone, Debug)]
pub enum ChangeDetail {
    Status { from: String, to: String },
    PublishYear { from: i32, to: i32 },
    SeasonCount { from: usize, to: usize },
    SeasonEpisodeCount { season: i32, from: usize, to: usize },
    EpisodeName { season: i32, episode: i32, from: String, to: String },
    EpisodeImages { season: i32, episode: i32 },
    EpisodeReleaseDate { season: i32, episode: i32, from: i64, to: i64 },
    AnimeEpisodeCount { from: i32, to: i32 },
    MangaChapterCount { from: FixedValue, to: FixedValue },
    PodcastEpisodeCount { from: usize, to: usize },
    PodcastEpisodeName { episode: i32, from: String, to: String },
    PodcastEpisodeImage { episode: i32 },
}

/// One typed change notice of a refresh.
#[derive(Clone, Debug)]
pub struct ChangeNotice {
    pub detail: ChangeDetail,
    pub kind: MediaStateChanged,
}

/// Element-wise view equality of two string vectors.
pub open spec fn str_seqs_eq(a: Seq<String>, b: Seq<String>) -> bool {
    a.len() == b.len() && forall|i: int| 0 <= i < a.len() ==> a[i]@ == b[i]@
}

fn str_vecs_eq(a: &Vec<String>, b: &Vec<String>) -> (r: bool)
    ensures
        r == str_seqs_eq(a@, b@),
{
    if a.len() != b.len() {
        return false;
    }
    let mut i: usize = 0;
    while i < a.len()
        invariant
            0 <= i <= a@.len(),
            a@.len() == b@.len(),
            forall|k: int| 0 <= k < i ==> a@[k]@ == b@[k]@,
        decreases a@.len() - i,
    {
        if !a[i].eq(&b[i]) {
            return false;
        }
        i += 1;
    }
    true
}

/// The notices one aligned episode pair of a show yields: a changed name,
/// changed images, and a moved release date, in that order.
pub open spec fn episode_pair_notices(e1: ShowEpisode, e2: ShowEpisode, season: i32) -> Seq<
    ChangeNotice,
> {
    (if e1.name@ != e2.name@ {
        seq![
            ChangeNotice {
                detail: ChangeDetail::EpisodeName {
                    season,
                    episode: e1.episode_number,
                    from: e1.name,
                    to: e2.name,
                },
                kind: MediaStateChanged::MetadataEpisodeNameChanged,
            },
        ]
    } else {
        Seq::empty()
    }) + (if !str_seqs_eq(e1.poster_images@, e2.poster_images@) {
        seq![
            ChangeNotice {
                detail: ChangeDetail::EpisodeImages { season, episode: e1.episode_number },
                kind: MediaStateChanged::MetadataEpisodeImagesChanged,
            },
        ]
    } else {
        Seq::empty()
    }) + (if e1.publish_date is Some && e2.publish_date is Some && e1.publish_date.unwrap()
        != e2.publish_date.unwrap() {
        seq![
            ChangeNotice {
                detail: ChangeDetail::EpisodeReleaseDate {
                    season,
                    episode: e1.episode_number,
                    from: e1.publish_date.unwrap(),
                    to: e2.publish_date.unwrap(),
                },
                kind: MediaStateChanged::MetadataReleaseDateChanged,
            },
        ]
    } else {
        Seq::empty()
    })
}

/// The notices of the first `n` aligned episode pairs.
pub open spec fn episode_pairs_notices(
    a: Seq<ShowEpisode>,
    b: Seq<ShowEpisode>,
    season: i32,
    n: int,
) -> Seq<ChangeNotice>
    decreases n,
{
    if n <= 0 {
        Seq::empty()
    } else {
        episode_pairs_notices(a, b, season, n - 1) + episode_pair_notices(a[n - 1], b[n - 1], season)
    }
}

/// The notices one aligned season pair yields: skipped when both sides are
/// special-named; a single episode-count notice when the counts differ;
/// otherwise the per-episode notices.
pub open spec fn season_pair_notices(s1: ShowSeason, s2: ShowSeason, specials: Seq<String>) -> Seq<
    ChangeNotice,
> {
    if spec_is_special_season(s1.name@, specials) && spec_is_special_season(s2.name@, specials) {
        Seq::empty()
    } else if s1.episodes@.len() != s2.episodes@.len() {
        seq![
            ChangeNotice {
                detail: ChangeDetail::SeasonEpisodeCount {
                    season: s1.season_number,
                    from: s1.episodes@.len() as usize,
                    to: s2.episodes@.len() as usize,
                },
                kind: MediaStateChanged::MetadataEpisodeReleased,
            },
        ]
    } else {
        episode_pairs_notices(
            s1.episodes@,
            s2.episodes@,
            s1.season_number,
            s1.episodes@.len() as int,
        )
    }
}

/// The notices of the first `n` aligned season pairs.
pub open spec fn season_pairs_notices(
    a: Seq<ShowSeason>,
    b: Seq<ShowSeason>,
    specials: Seq<String>,
    n: int,
) -> Seq<ChangeNotice>
    decreases n,
{
    if n <= 0 {
        Seq::empty()
    } else {
        season_pairs_notices(a, b, specials, n - 1) + season_pair_notices(a[n - 1], b[n - 1], specials)
    }
}

/// The notices one aligned podcast episode pair yields.
pub open spec fn podcast_pair_notices(e1: PodcastEpisode, e2: PodcastEpisode) -> Seq<ChangeNotice> {
    (if e1.title@ != e2.title@ {
        seq![
            ChangeNotice {
                detail: ChangeDetail::PodcastEpisodeName {
                    episode: e1.number,
                    from: e1.title,
                    to: e2.title,
                },
                kind: MediaStateChanged::MetadataEpisodeNameChanged,
            },
        ]
    } else {
        Seq::empty()
    }) + (if !opt_str_eq(e1.thumbnail, e2.thumbnail) {
        seq![
            ChangeNotice {
                detail: ChangeDetail::PodcastEpisodeImage { episode: e1.number },
                kind: MediaStateChanged::MetadataEpisodeImagesChanged,
            },
        ]
    } else {
        Seq::empty()
    })
}

/// The notices of the first `n` aligned podcast episode pairs.
pub open spec fn podcast_pairs_notices(
    a: Seq<PodcastEpisode>,
    b: Seq<PodcastEpisode>,
    n: int,
) -> Seq<ChangeNotice>
    decreases n,
{
    if n <= 0 {
        Seq::empty()
    } else {
        podcast_pairs_notices(a, b, n - 1) + podcast_pair_notices(a[n - 1], b[n - 1])
    }
}

/// The production-status and publish-year notices of a refresh.
pub open spec fn header_notices(stored: MediaDetails, details: MediaDetails) -> Seq<ChangeNotice> {
    (if stored.production_status is Some && details.production_status is Some
        && stored.production_status.unwrap()@ != details.production_status.unwrap()@ {
        seq![
            ChangeNotice {
                detail: ChangeDetail::Status {
                    from: stored.production_status.unwrap(),
                    to: details.production_status.unwrap(),
                },
                kind: MediaStateChanged::MetadataStatusChanged,
            },
        ]
    } else {
        Seq::empty()
    }) + (if stored.publish_year is Some && details.publish_year is Some
        && stored.publish_year.unwrap() != details.publish_year.unwrap() {
        seq![
            ChangeNotice {
                detail: ChangeDetail::PublishYear {
                    from: stored.publish_year.unwrap(),
                    to: details.publish_year.unwrap(),
                },
                kind: MediaStateChanged::MetadataReleaseDateChanged,
            },
        ]
    } else {
        Seq::empty()
    })
}

/// The show notices of a refresh: a single season-count notice when the
/// season lists differ in length, else the aligned season pairs.
pub open spec fn show_notices(
    stored: MediaDetails,
    details: MediaDetails,
    specials: Seq<String>,
) -> Seq<ChangeNotice> {
    if stored.show_specifics is Some && details.show_specifics is Some {
        let a = stored.show_specifics.unwrap().seasons@;
        let b = details.show_specifics.unwrap().seasons@;
        if a.len() != b.len() {
            seq![
                ChangeNotice {
                    detail: ChangeDetail::SeasonCount {
                        from: a.len() as usize,
                        to: b.len() as usize,
                    },
                    kind: MediaStateChanged::MetadataNumberOfSeasonsChanged,
                },
            ]
        } else {
            season_pairs_notices(a, b, specials, a.len() as int)
        }
    } else {
        Seq::empty()
    }
}

/// The anime and manga count notices of a refresh.
pub open spec fn count_notices(stored: MediaDetails, details: MediaDetails) -> Seq<ChangeNotice> {
    (if stored.anime_specifics is Some && details.anime_specifics is Some
        && stored.anime_specifics.unwrap().episodes is Some
        && details.anime_specifics.unwrap().episodes is Some
        && stored.anime_specifics.unwrap().episodes.unwrap()
        != details.anime_specifics.unwrap().episodes.unwrap() {
        seq![
            ChangeNotice {
                detail: ChangeDetail::AnimeEpisodeCount {
                    from: stored.anime_specifics.unwrap().episodes.unwrap(),
                    to: details.anime_specifics.unwrap().episodes.unwrap(),
                },
                kind: MediaStateChanged::MetadataChaptersOrEpisodesChanged,
            },
        ]
    } else {
        Seq::empty()
    }) + (if stored.manga_specifics is Some && details.manga_specifics is Some
        && stored.manga_specifics.unwrap().chapters is Some
        && details.manga_specifics.unwrap().chapters is Some
        && stored.manga_specifics.unwrap().chapters.unwrap()
        != details.manga_specifics.unwrap().chapters.unwrap() {
        seq![
            ChangeNotice {
                detail: ChangeDetail::MangaChapterCount {
                    from: stored.manga_specifics.unwrap().chapters.unwrap(),
                    to: details.manga_specifics.unwrap().chapters.unwrap(),
                },
                kind: MediaStateChanged::MetadataChaptersOrEpisodesChanged,
            },
        ]
    } else {
        Seq::empty()
    })
}

/// The podcast notices of a refresh.
pub open spec fn podcast_notices(stored: MediaDetails, details: MediaDetails) -> Seq<ChangeNotice> {
    if stored.podcast_specifics is Some && details.podcast_specifics is Some {
        let a = stored.podcast_specifics.unwrap().episodes@;
        let b = details.podcast_specifics.unwrap().episodes@;
        if a.len() != b.len() {
            seq![
                ChangeNotice {
                    detail: ChangeDetail::PodcastEpisodeCount {
                        from: a.len() as usize,
                        to: b.len() as usize,
                    },
                    kind: MediaStateChanged::MetadataEpisodeReleased,
                },
            ]
        } else {
            podcast_pairs_notices(a, b, a.len() as int)
        }
    } else {
        Seq::empty()
    }
}

/// Every notice a refresh of this entity yields, in emission order.
pub open spec fn spec_metadata_diff(
    stored: MediaDetails,
    details: MediaDetails,
    specials: Seq<String>,
) -> Seq<ChangeNotice> {
    header_notices(stored, details) + show_notices(stored, details, specials) + count_notices(
        stored,
        details,
    ) + podcast_notices(stored, details)
}

fn push_episode_pair(
    notices: &mut Vec<ChangeNotice>,
    e1: &ShowEpisode,
    e2: &ShowEpisode,
    season: i32,
)
    ensures
        final(notices)@ == old(notices)@ + episode_pair_notices(*e1, *e2, season),
{
    let ghost base = notices@;
    if !e1.name.eq(&e2.name) {
        notices.push(
            ChangeNotice {
                detail: ChangeDetail::EpisodeName {
                    season,
                    episode: e1.episode_number,
                    from: e1.name.clone(),
                    to: e2.name.clone(),
                },
                kind: MediaStateChanged::MetadataEpisodeNameChanged,
            },
        );
    }
    if !str_vecs_eq(&e1.poster_images, &e2.poster_images) {
        notices.push(
            ChangeNotice {
                detail: ChangeDetail::EpisodeImages { season, episode: e1.episode_number },
                kind: MediaStateChanged::MetadataEpisodeImagesChanged,
            },
        );
    }
    let date_moved = match (e1.publish_date, e2.publish_date) {
        (Some(d1), Some(d2)) => d1 != d2,
        _ => false,
    };
    if date_moved {
        notices.push(
            ChangeNotice {
                detail: ChangeDetail::EpisodeReleaseDate {
                    season,
                    episode: e1.episode_number,
                    from: e1.publish_date.unwrap(),
                    to: e2.publish_date.unwrap(),
                },
                kind: MediaStateChanged::MetadataReleaseDateChanged,
            },
        );
    }
    proof {
        assert(notices@ =~= base + episode_pair_notices(*e1, *e2, season));
    }
}

fn opt_string_eq_local(a: &Option<String>, b: &Option<String>) -> (r: bool)
    ensures
        r == opt_str_eq(*a, *b),
{
    match (a, b) {
        (None, None) => true,
        (Some(x), Some(y)) => x.eq(y),
        _ => false,
    }
}

fn push_podcast_pair(notices: &mut Vec<ChangeNotice>, e1: &PodcastEpisode, e2: &PodcastEpisode)
    ensures
        final(notices)@ == old(notices)@ + podcast_pair_notices(*e1, *e2),
{
    let ghost base = notices@;
    if !e1.title.eq(&e2.title) {
        notices.push(
            ChangeNotice {
                detail: ChangeDetail::PodcastEpisodeName {
                    episode: e1.number,
                    from: e1.title.clone(),
                    to: e2.title.clone(),
                },
                kind: MediaStateChanged::MetadataEpisodeNameChanged,
            },
        );
    }
    if !opt_string_eq_local(&e1.thumbnail, &e2.thumbnail) {
        notices.push(
            ChangeNotice {
                detail: ChangeDetail::PodcastEpisodeImage { episode: e1.number },
                kind: MediaStateChanged::MetadataEpisodeImagesChanged,
            },
        );
    }
    proof {
        assert(notices@ =~= base + podcast_pair_notices(*e1, *e2));
    }
}

fn push_header_notices(notices: &mut Vec<ChangeNotice>, stored: &MediaDetails, details: &MediaDetails)
    ensures
        final(notices)@ == old(notices)@ + header_notices(*stored, *details),
{
    let ghost base = notices@;
    let status_changed = match (&stored.production_status, &details.production_status) {
        (Some(p1), Some(p2)) => !p1.eq(p2),
        _ => false,
    };
    if status_changed {
        notices.push(
            ChangeNotice {
                detail: ChangeDetail::Status {
                    from: stored.production_status.as_ref().unwrap().clone(),
                    to: details.production_status.as_ref().unwrap().clone(),
                },
                kind: MediaStateChanged::MetadataStatusChanged,
            },
        );
    }
    let year_changed = match (stored.publish_year, details.publish_year) {
        (Some(y1), Some(y2)) => y1 != y2,
        _ => false,
    };
    if year_changed {
        notices.push(
            ChangeNotice {
                detail: ChangeDetail::PublishYear {
                    from: stored.publish_year.unwrap(),
                    to: details.publish_year.unwrap(),
                },
                kind: MediaStateChanged::MetadataReleaseDateChanged,
            },
        );
    }
    proof {
        assert(notices@ =~= base + header_notices(*stored, *details));
    }
}

fn push_season_pair(
    notices: &mut Vec<ChangeNotice>,
    s1: &ShowSeason,
    s2: &ShowSeason,
    specials: &Vec<String>,
)
    ensures
        final(notices)@ == old(notices)@ + season_pair_notices(*s1, *s2, specials@),
{
    let ghost base = notices@;
    let special1 = crate::finished::is_special_season(&s1.name, specials);
    let special2 = crate::finished::is_special_season(&s2.name, specials);
    if special1 && special2 {
        proof {
            assert(notices@ =~= base + season_pair_notices(*s1, *s2, specials@));
        }
        return;
    }
    if s1.episodes.len() != s2.episodes.len() {
        notices.push(
            ChangeNotice {
                detail: ChangeDetail::SeasonEpisodeCount {
                    season: s1.season_number,
                    from: s1.episodes.len(),
                    to: s2.episodes.len(),
                },
                kind: MediaStateChanged::MetadataEpisodeReleased,
            },
        );
        proof {
            assert(notices@ =~= base + season_pair_notices(*s1, *s2, specials@));
        }
        return;
    }
    let m = s1.episodes.len();
    let mut j: usize = 0;
    while j < m
        invariant
            0 <= j <= m,
            m == s1.episodes@.len(),
            m == s2.episodes@.len(),
            notices@ == base + episode_pairs_notices(
                s1.episodes@,
                s2.episodes@,
                s1.season_number,
                j as int,
            ),
        decreases m - j,
    {
        push_episode_pair(notices, &s1.episodes[j], &s2.episodes[j], s1.season_number);
        j += 1;
    }
    proof {
        assert(notices@ =~= base + season_pair_notices(*s1, *s2, specials@));
    }
}

fn push_show_notices(
    notices: &mut Vec<ChangeNotice>,
    stored: &MediaDetails,
    details: &MediaDetails,
    specials: &Vec<String>,
)
    ensures
        final(notices)@ == old(notices)@ + show_notices(*stored, *details, specials@),
{
    let ghost base = notices@;
    if let (Some(show1), Some(show2)) = (&stored.show_specifics, &details.show_specifics) {
        if show1.seasons.len() != show2.seasons.len() {
            notices.push(
                ChangeNotice {
                    detail: ChangeDetail::SeasonCount {
                        from: show1.seasons.len(),
                        to: show2.seasons.len(),
                    },
                    kind: MediaStateChanged::MetadataNumberOfSeasonsChanged,
                },
            );
            proof {
                assert(notices@ =~= base + show_notices(*stored, *details, specials@));
            }
        } else {
            let n = show1.seasons.len();
            let mut i: usize = 0;
            while i < n
                invariant
                    0 <= i <= n,
                    stored.show_specifics == Option::Some(*show1),
                    details.show_specifics == Option::Some(*show2),
                    n == show1.seasons@.len(),
                    n == show2.seasons@.len(),
                    notices@ == base + season_pairs_notices(
                        show1.seasons@,
                        show2.seasons@,
                        specials@,
                        i as int,
                    ),
                decreases n - i,
            {
                push_season_pair(notices, &show1.seasons[i], &show2.seasons[i], specials);
                i += 1;
            }
            proof {
                assert(notices@ =~= base + show_notices(*stored, *details, specials@));
            }
        }
    } else {
        proof {
            assert(notices@ =~= base + show_notices(*stored, *details, specials@));
        }
    }
}

fn push_count_notices(notices: &mut Vec<ChangeNotice>, stored: &MediaDetails, details: &MediaDetails)
    ensures
        final(notices)@ == old(notices)@ + count_notices(*stored, *details),
{
    let ghost base = notices@;
    let anime_changed = match (&stored.anime_specifics, &details.anime_specifics) {
        (Some(a1), Some(a2)) => match (a1.episodes, a2.episodes) {
            (Some(e1), Some(e2)) => e1 != e2,
            _ => false,
        },
        _ => false,
    };
    if anime_changed {
        notices.push(
            ChangeNotice {
                detail: ChangeDetail::AnimeEpisodeCount {
                    from: stored.anime_specifics.unwrap().episodes.unwrap(),
                    to: details.anime_specifics.unwrap().episodes.unwrap(),
                },
                kind: MediaStateChanged::MetadataChaptersOrEpisodesChanged,
            },
        );
    }
    let manga_changed = match (&stored.manga_specifics, &details.manga_specifics) {
        (Some(m1), Some(m2)) => match (m1.chapters, m2.chapters) {
            (Some(c1), Some(c2)) => c1 != c2,
            _ => false,
        },
        _ => false,
    };
    if manga_changed {
        notices.push(
            ChangeNotice {
                detail: ChangeDetail::MangaChapterCount {
                    from: stored.manga_specifics.unwrap().chapters.unwrap(),
                    to: details.manga_specifics.unwrap().chapters.unwrap(),
                },
                kind: MediaStateChanged::MetadataChaptersOrEpisodesChanged,
            },
        );
    }
    proof {
        assert(notices@ =~= base + count_notices(*stored, *details));
    }
}

fn push_podcast_notices(
    notices: &mut Vec<ChangeNotice>,
    stored: &MediaDetails,
    details: &MediaDetails,
)
    ensures
        final(notices)@ == old(notices)@ + podcast_notices(*stored, *details),
{
    let ghost base = notices@;
    if let (Some(p1), Some(p2)) = (&stored.podcast_specifics, &details.podcast_specifics) {
        if p1.episodes.len() != p2.episodes.len() {
            notices.push(
                ChangeNotice {
                    detail: ChangeDetail::PodcastEpisodeCount {
                        from: p1.episodes.len(),
                        to: p2.episodes.len(),
                    },
                    kind: MediaStateChanged::MetadataEpisodeReleased,
                },
            );
            proof {
                assert(notices@ =~= base + podcast_notices(*stored, *details));
            }
        } else {
            let m = p1.episodes.len();
            let mut j: usize = 0;
            while j < m
                invariant
                    0 <= j <= m,
                    stored.podcast_specifics == Option::Some(*p1),
                    details.podcast_specifics == Option::Some(*p2),
                    m == p1.episodes@.len(),
                    m == p2.episodes@.len(),
                    notices@ == base + podcast_pairs_notices(p1.episodes@, p2.episodes@, j as int),
                decreases m - j,
            {
                push_podcast_pair(notices, &p1.episodes[j], &p2.episodes[j]);
                j += 1;
            }
            proof {
                assert(notices@ =~= base + podcast_notices(*stored, *details));
            }
        }
    } else {
        proof {
            assert(notices@ =~= base + podcast_notices(*stored, *details));
        }
    }
}

/// Diff a stored snapshot against a freshly fetched one and return the
/// typed change notices, in emission order.
pub fn metadata_diff(
    stored: &MediaDetails,
    details: &MediaDetails,
    specials: &Vec<String>,
) -> (notices: Vec<ChangeNotice>)
    ensures
        notices@ == spec_metadata_diff(*stored, *details, specials@),
{
    let mut notices: Vec<ChangeNotice> = Vec::new();
    push_header_notices(&mut notices, stored, details);
    push_show_notices(&mut notices, stored, details, specials);
    push_count_notices(&mut notices, stored, details);
    push_podcast_notices(&mut notices, stored, details);
    proof {
        assert(notices@ =~= spec_metadata_diff(*stored, *details, specials@));
    }
    notices
}

} // verus!
