//! Shared data model: media kinds, consumption sessions and metadata
//! snapshots, all carried as plain values.

use vstd::prelude::*;
use crate::FixedValue;

verus! {

/// The kind of a media entity.
#[derive(Clone, Copy, Debug, PartialEq, Eq, Structural)]
pub enum MediaLot {
    AudioBook,
    Anime,
    Book,
    Podcast,
    Manga,
    Movie,
    Show,
    VideoGame,
    VisualNovel,
}

impl MediaLot {
    /// Whether completion is judged per episode coordinate rather than per
    /// session.
    pub open spec fn spec_is_episodic(self) -> bool {
        self == MediaLot::Show || self == MediaLot::Podcast || self == MediaLot::Anime
            || self == MediaLot::Manga
    }

    /// Executable twin of [`Self::spec_is_episodic`].
    #[verifier::when_used_as_spec(spec_is_episodic)]
    pub fn is_episodic(self) -> (r: bool)
        ensures
            r == self.spec_is_episodic(),
    {
        match self {
            MediaLot::Show | MediaLot::Podcast | MediaLot::Anime | MediaLot::Manga => true,
            _ => false,
        }
    }
}

/// The state of one consumption session.
#[derive(Clone, Copy, Debug, PartialEq, Eq, Structural)]
pub enum SeenState {
    InProgress,
    Completed,
    Dropped,
    OnAHold,
}

/// The default collections whose membership the progress engine derives.
#[derive(Clone, Copy, Debug, PartialEq, Eq, Structural)]
pub enum DefaultCollection {
    Watchlist,
    InProgress,
    Completed,
    Monitoring,
    Custom,
}

/// Episode coordinate of a show session.
#[derive(Clone, Copy, Debug, PartialEq, Eq, Structural)]
pub struct SeenShowExtraInformation {
    pub season: i32,
    pub episode: i32,
}

/// Episode coordinate of a podcast session.
#[derive(Clone, Copy, Debug, PartialEq, Eq, Structural)]
pub struct SeenPodcastExtraInformation {
    pub episode: i32,
}

/// Episode coordinate of an anime session.
#[derive(Clone, Copy, Debug, PartialEq, Eq, Structural)]
pub struct SeenAnimeExtraInformation {
    pub episode: Option<i32>,
}

/// Chapter and volume coordinate of a manga session.
#[derive(Clone, Copy, Debug, PartialEq, Eq, Structural)]
pub struct SeenMangaExtraInformation {
    pub chapter: Option<FixedValue>,
    pub volume: Option<i32>,
}

/// One consumption session of a user for one media entity.
///
/// `updated_at` is the append-only history of progress touches, as epoch
/// seconds; dates are carried as epoch day numbers.
#[derive(Clone, Debug)]
pub struct SeenRecord {
    pub state: SeenState,
    pub progress: FixedValue,
    pub started_on: Option<i64>,
    pub finished_on: Option<i64>,
    pub updated_at: Vec<i64>,
    pub provider_watched_on: Option<String>,
    pub show_extra_information: Option<SeenShowExtraInformation>,
    pub podcast_extra_information: Option<SeenPodcastExtraInformation>,
    pub anime_extra_information: Option<SeenAnimeExtraInformation>,
    pub manga_extra_information: Option<SeenMangaExtraInformation>,
}

/// One episode of one season of a show.
#[derive(Clone, Debug)]
pub struct ShowEpisode {
    pub episode_number: i32,
    pub name: String,
    pub poster_images: Vec<String>,
    pub publish_date: Option<i64>,
    pub runtime: Option<i32>,
}

/// One season of a show.
#[derive(Clone, Debug)]
pub struct ShowSeason {
    pub season_number: i32,
    pub name: String,
    pub episodes: Vec<ShowEpisode>,
}

/// Show structure as the provider reports it.
#[derive(Clone, Debug)]
pub struct ShowSpecifics {
    pub seasons: Vec<ShowSeason>,
}

/// One episode of a podcast.
#[derive(Clone, Debug)]
pub struct PodcastEpisode {
    pub number: i32,
    pub title: String,
    pub thumbnail: Option<String>,
    pub runtime: Option<i32>,
}

/// Podcast structure as the provider reports it.
#[derive(Clone, Debug)]
pub struct PodcastSpecifics {
    pub episodes: Vec<PodcastEpisode>,
}

/// Anime details as the provider reports them.
#[derive(Clone, Copy, Debug, PartialEq, Eq, Structural)]
pub struct AnimeSpecifics {
    pub episodes: Option<i32>,
}

/// Manga details as the provider reports them.
#[derive(Clone, Copy, Debug, PartialEq, Eq, Structural)]
pub struct MangaSpecifics {
    pub chapters: Option<FixedValue>,
    pub volumes: Option<i32>,
}

/// Movie details as the provider reports them.
#[derive(Clone, Copy, Debug, PartialEq, Eq, Structural)]
pub struct MovieSpecifics {
    pub runtime: Option<i32>,
}

/// Book details as the provider reports them.
#[derive(Clone, Copy, Debug, PartialEq, Eq, Structural)]
pub struct BookSpecifics {
    pub pages: Option<i32>,
}

/// Audio book details as the provider reports them.
#[derive(Clone, Copy, Debug, PartialEq, Eq, Structural)]
pub struct AudioBookSpecifics {
    pub runtime: Option<i32>,
}

/// Visual novel details as the provider reports them.
#[derive(Clone, Copy, Debug, PartialEq, Eq, Structural)]
pub struct VisualNovelSpecifics {
    pub length: Option<i32>,
}

/// Video game details as the provider reports them.
#[derive(Clone, Copy, Debug, PartialEq, Eq, Structural)]
pub struct VideoGameSpecifics {
    pub platforms_count: Option<i32>,
}

/// Index of the first season with the given number, or -1.
pub open spec fn find_season_idx(seasons: Seq<ShowSeason>, sn: i32) -> int
    decreases seasons.len(),
{
    if seasons.len() == 0 {
        -1
    } else if seasons[0].season_number == sn {
        0
    } else {
        let r = find_season_idx(seasons.drop_first(), sn);
        if r == -1 {
            -1
        } else {
            r + 1
        }
    }
}

pub proof fn lemma_find_season_prefix(seasons: Seq<ShowSeason>, sn: i32, i: int)
    requires
        0 <= i <= seasons.len(),
        forall|k: int| 0 <= k < i ==> seasons[k].season_number != sn,
    ensures
        i == seasons.len() ==> find_season_idx(seasons, sn) == -1,
        i < seasons.len() && seasons[i].season_number == sn ==> find_season_idx(seasons, sn) == i,
    decreases i,
{
    if i > 0 {
        lemma_find_season_prefix(seasons.drop_first(), sn, i - 1);
    }
}

/// Index of the first episode with the given number, or -1.
pub open spec fn find_episode_idx(episodes: Seq<ShowEpisode>, en: i32) -> int
    decreases episodes.len(),
{
    if episodes.len() == 0 {
        -1
    } else if episodes[0].episode_number == en {
        0
    } else {
        let r = find_episode_idx(episodes.drop_first(), en);
        if r == -1 {
            -1
        } else {
            r + 1
        }
    }
}

pub proof fn lemma_find_episode_prefix(episodes: Seq<ShowEpisode>, en: i32, i: int)
    requires
        0 <= i <= episodes.len(),
        forall|k: int| 0 <= k < i ==> episodes[k].episode_number != en,
    ensures
        i == episodes.len() ==> find_episode_idx(episodes, en) == -1,
        i < episodes.len() && episodes[i].episode_number == en ==> find_episode_idx(episodes, en)
            == i,
    decreases i,
{
    if i > 0 {
        lemma_find_episode_prefix(episodes.drop_first(), en, i - 1);
    }
}

/// The season and episode a (season, episode) coordinate resolves to: the
/// first season carrying the season number, and within it alone the first
/// episode carrying the episode number.
pub open spec fn spec_get_episode(seasons: Seq<ShowSeason>, sn: i32, en: i32) -> Option<
    (ShowSeason, ShowEpisode),
> {
    let si = find_season_idx(seasons, sn);
    if si == -1 {
        Option::None
    } else {
        let season = seasons[si];
        let ei = find_episode_idx(season.episodes@, en);
        if ei == -1 {
            Option::None
        } else {
            Option::Some((season, season.episodes@[ei]))
        }
    }
}

impl ShowSpecifics {
    /// Find a season and one of its episodes by their numbers; the episode
    /// is looked up only in the first season carrying the season number.
    pub fn get_episode(&self, season_number: i32, episode_number: i32) -> (r: Option<
        (&ShowSeason, &ShowEpisode),
    >)
        ensures
            match r {
                Option::Some((se, ep)) => spec_get_episode(self.seasons@, season_number, episode_number)
                    == Option::Some((*se, *ep)),
                Option::None => spec_get_episode(self.seasons@, season_number, episode_number)
                    is None,
            },
    {
        let mut i: usize = 0;
        while i < self.seasons.len()
            invariant
                0 <= i <= self.seasons@.len(),
                forall|a: int| 0 <= a < i ==> self.seasons@[a].season_number != season_number,
            decreases self.seasons@.len() - i,
        {
            let season = &self.seasons[i];
            if season.season_number == season_number {
                proof {
                    lemma_find_season_prefix(self.seasons@, season_number, i as int);
                }
                let mut j: usize = 0;
                while j < season.episodes.len()
                    invariant
                        0 <= j <= season.episodes@.len(),
                        0 <= i < self.seasons@.len(),
                        season == self.seasons@[i as int],
                        find_season_idx(self.seasons@, season_number) == i as int,
                        forall|b: int|
                            0 <= b < j ==> season.episodes@[b].episode_number != episode_number,
                    decreases season.episodes@.len() - j,
                {
                    if season.episodes[j].episode_number == episode_number {
                        proof {
                            lemma_find_episode_prefix(season.episodes@, episode_number, j as int);
                        }
                        return Some((season, &season.episodes[j]));
                    }
                    j += 1;
                }
                proof {
                    lemma_find_episode_prefix(
                        season.episodes@,
                        episode_number,
                        season.episodes@.len() as int,
                    );
                }
                return None;
            }
            i += 1;
        }
        proof {
            lemma_find_season_prefix(self.seasons@, season_number, self.seasons@.len() as int);
        }
        None
    }
}

/// Index of the first podcast episode with the given number, or -1.
pub open spec fn find_podcast_idx(episodes: Seq<PodcastEpisode>, n: i32) -> int
    decreases episodes.len(),
{
    if episodes.len() == 0 {
        -1
    } else if episodes[0].number == n {
        0
    } else {
        let r = find_podcast_idx(episodes.drop_first(), n);
        if r == -1 {
            -1
        } else {
            r + 1
        }
    }
}

pub proof fn lemma_find_podcast_prefix(episodes: Seq<PodcastEpisode>, n: i32, i: int)
    requires
        0 <= i <= episodes.len(),
        forall|k: int| 0 <= k < i ==> episodes[k].number != n,
    ensures
        i == episodes.len() ==> find_podcast_idx(episodes, n) == -1,
        i < episodes.len() && episodes[i].number == n ==> find_podcast_idx(episodes, n) == i,
    decreases i,
{
    if i > 0 {
        lemma_find_podcast_prefix(episodes.drop_first(), n, i - 1);
    }
}

/// The podcast episode a number resolves to: the first one carrying it.
pub open spec fn spec_episode_by_number(episodes: Seq<PodcastEpisode>, n: i32) -> Option<
    PodcastEpisode,
> {
    let i = find_podcast_idx(episodes, n);
    if i == -1 {
        Option::None
    } else {
        Option::Some(episodes[i])
    }
}

impl PodcastSpecifics {
    /// Find an episode by its number.
    pub fn episode_by_number(&self, number: i32) -> (r: Option<&PodcastEpisode>)
        ensures
            match r {
                Option::Some(ep) => spec_episode_by_number(self.episodes@, number) == Option::Some(
                    *ep,
                ),
                Option::None => spec_episode_by_number(self.episodes@, number) is None,
            },
    {
        let mut i: usize = 0;
        while i < self.episodes.len()
            invariant
                0 <= i <= self.episodes@.len(),
                forall|a: int| 0 <= a < i ==> self.episodes@[a].number != number,
            decreases self.episodes@.len() - i,
        {
            if self.episodes[i].number == number {
                proof {
                    lemma_find_podcast_prefix(self.episodes@, number, i as int);
                }
                return Some(&self.episodes[i]);
            }
            i += 1;
        }
        proof {
            lemma_find_podcast_prefix(self.episodes@, number, self.episodes@.len() as int);
        }
        None
    }
}

/// Canonical metadata snapshot: the fields the engines read, diff and
/// overwrite. Provider-fetched details and the stored record share this
/// shape.
#[derive(Clone, Debug)]
pub struct MediaDetails {
    pub title: String,
    pub description: Option<String>,
    pub production_status: Option<String>,
    pub publish_year: Option<i32>,
    pub publish_date: Option<i64>,
    pub show_specifics: Option<ShowSpecifics>,
    pub podcast_specifics: Option<PodcastSpecifics>,
    pub anime_specifics: Option<AnimeSpecifics>,
    pub manga_specifics: Option<MangaSpecifics>,
    pub movie_specifics: Option<MovieSpecifics>,
    pub book_specifics: Option<BookSpecifics>,
    pub audio_book_specifics: Option<AudioBookSpecifics>,
    pub visual_novel_specifics: Option<VisualNovelSpecifics>,
    pub video_game_specifics: Option<VideoGameSpecifics>,
    pub genres: Vec<String>,
    pub people: Vec<PartialMetadataPerson>,
    pub suggestions: Vec<PartialMetadataWithoutId>,
    pub group_identifiers: Vec<String>,
}

/// A person as a provider names it, before it has a row of its own.
#[derive(Clone, Debug)]
pub struct PartialMetadataPerson {
    pub identifier: String,
    pub source: String,
    pub source_specifics: Option<String>,
    pub name: String,
    pub role: String,
    pub character: Option<String>,
}

/// A suggested related media entity, before it has a row of its own.
#[derive(Clone, Debug)]
pub struct PartialMetadataWithoutId {
    pub identifier: String,
    pub lot: MediaLot,
    pub source: String,
    pub title: String,
}

} // verus!
