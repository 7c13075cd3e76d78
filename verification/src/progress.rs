//! Progress engine: decides, from a partial progress report, whether a
//! tracking session starts, continues or closes, and applies the chosen
//! transition to the session history of one (user, metadata) pair.
//!
//! The history is ordered oldest first; the engine only ever mutates the
//! most recent record, or appends a fresh one.

use vstd::prelude::*;
use crate::{FixedValue, PROGRESS_FULL};
use crate::types::{
    MediaLot, SeenAnimeExtraInformation, SeenMangaExtraInformation, SeenPodcastExtraInformation,
    SeenRecord, SeenShowExtraInformation, SeenState,
};

verus! {

/// The transition the engine selects for one progress report.
#[derive(Clone, Copy, Debug, PartialEq, Eq, Structural)]
pub enum ProgressUpdateAction {
    Update,
    Now,
    InThePast,
    JustStarted,
    ChangeState,
}

/// The typed errors of the progress engine. Validation errors are rejected
/// before any write; conflict errors report a no-op.
#[derive(Clone, Copy, Debug, PartialEq, Eq, Structural)]
pub enum ProgressUpdateErrorVariant {
    AlreadySeen,
    NoProgressChange,
    NoActiveSession,
    MissingProgressOrState,
    MissingSeasonNumber,
    MissingEpisodeNumber,
}

/// One progress report, as the caller hands it in.
#[derive(Clone, Debug)]
pub struct ProgressUpdateInput {
    pub progress: Option<FixedValue>,
    pub change_state: Option<SeenState>,
    pub date: Option<i64>,
    pub show_season_number: Option<i32>,
    pub show_episode_number: Option<i32>,
    pub podcast_episode_number: Option<i32>,
    pub anime_episode_number: Option<i32>,
    pub manga_chapter_number: Option<FixedValue>,
    pub manga_volume_number: Option<i32>,
    pub provider_watched_on: Option<String>,
}

/// What a successful transition touched.
#[derive(Clone, Copy, Debug, PartialEq, Eq, Structural)]
pub struct ProgressUpdateOutcome {
    /// Index in the history of the record written.
    pub index: usize,
    /// Whether the written record is in the `Completed` state; the caller
    /// refreshes the idempotency cache exactly for such outcomes.
    pub completed: bool,
}

/// A session that a new report may continue: not yet at full progress and
/// not dropped.
pub open spec fn is_open_session(r: SeenRecord) -> bool {
    r.progress.hundredths < PROGRESS_FULL && r.state != SeenState::Dropped
}

/// Index of the most recent open session, or -1 when none is open.
pub open spec fn latest_open_index(h: Seq<SeenRecord>) -> int
    decreases h.len(),
{
    if h.len() == 0 {
        -1
    } else if is_open_session(h[h.len() - 1]) {
        h.len() - 1
    } else {
        latest_open_index(h.drop_last())
    }
}

pub proof fn lemma_latest_open_index(h: Seq<SeenRecord>)
    ensures
        -1 <= latest_open_index(h) < h.len(),
        latest_open_index(h) >= 0 ==> is_open_session(h[latest_open_index(h)]),
    decreases h.len(),
{
    if h.len() > 0 && !is_open_session(h[h.len() - 1]) {
        lemma_latest_open_index(h.drop_last());
    }
}

/// View-level equality of two optional provenance strings.
pub open spec fn opt_str_eq(a: Option<String>, b: Option<String>) -> bool {
    match (a, b) {
        (Option::None, Option::None) => true,
        (Option::Some(x), Option::Some(y)) => x@ == y@,
        _ => false,
    }
}

/// The provenance a transition stores: the new value wins, else the prior
/// one is kept.
pub open spec fn chosen_provenance(reported: Option<String>, prior: Option<String>) -> Option<
    String,
> {
    if reported is Some {
        reported
    } else {
        prior
    }
}

/// Action selection, in the precedence the engine applies: an explicit
/// target state wins; then a missing progress is rejected; a full progress
/// report is filed on its date; anything else starts or continues a session.
pub open spec fn spec_select_action(
    input: ProgressUpdateInput,
    has_open: bool,
    today: i64,
) -> Result<ProgressUpdateAction, ProgressUpdateErrorVariant> {
    if input.change_state is Some {
        Result::Ok(ProgressUpdateAction::ChangeState)
    } else {
        match input.progress {
            Option::None => Result::Err(ProgressUpdateErrorVariant::MissingProgressOrState),
            Option::Some(p) => {
                if p.hundredths == PROGRESS_FULL {
                    match input.date {
                        Option::None => Result::Ok(ProgressUpdateAction::InThePast),
                        Option::Some(d) => {
                            if d == today {
                                if has_open {
                                    Result::Ok(ProgressUpdateAction::Update)
                                } else {
                                    Result::Ok(ProgressUpdateAction::Now)
                                }
                            } else {
                                Result::Ok(ProgressUpdateAction::InThePast)
                            }
                        },
                    }
                } else if has_open {
                    Result::Ok(ProgressUpdateAction::Update)
                } else {
                    Result::Ok(ProgressUpdateAction::JustStarted)
                }
            },
        }
    }
}

/// Executable twin of [`spec_select_action`].
pub fn select_progress_action(input: &ProgressUpdateInput, has_open: bool, today: i64) -> (r:
    Result<ProgressUpdateAction, ProgressUpdateErrorVariant>)
    ensures
        r == spec_select_action(*input, has_open, today),
{
    if input.change_state.is_some() {
        Ok(ProgressUpdateAction::ChangeState)
    } else {
        match &input.progress {
            None => Err(ProgressUpdateErrorVariant::MissingProgressOrState),
            Some(p) => {
                if p.hundredths == PROGRESS_FULL {
                    match &input.date {
                        None => Ok(ProgressUpdateAction::InThePast),
                        Some(d) => {
                            if *d == today {
                                if has_open {
                                    Ok(ProgressUpdateAction::Update)
                                } else {
                                    Ok(ProgressUpdateAction::Now)
                                }
                            } else {
                                Ok(ProgressUpdateAction::InThePast)
                            }
                        },
                    }
                } else if has_open {
                    Ok(ProgressUpdateAction::Update)
                } else {
                    Ok(ProgressUpdateAction::JustStarted)
                }
            },
        }
    }
}

/// A continued session would be written with nothing changed: same progress
/// and same provenance.
pub open spec fn is_no_progress_change(prev: SeenRecord, input: ProgressUpdateInput) -> bool {
    &&& input.progress is Some
    &&& prev.progress == input.progress.unwrap()
    &&& opt_str_eq(prev.provider_watched_on, input.provider_watched_on)
}

/// How a continued session relates to the record it replaces: progress and
/// state follow the report, the touch history grows exactly when progress
/// moved, the finish date is set exactly on reaching full progress, and the
/// manga coordinate may be rewritten out of order.
pub open spec fn continued_ok(
    prev: SeenRecord,
    new: SeenRecord,
    input: ProgressUpdateInput,
    now: i64,
    now_day: i64,
) -> bool {
    let p = input.progress.unwrap();
    &&& new.progress == p
    &&& new.state == (if p.hundredths == PROGRESS_FULL {
        SeenState::Completed
    } else {
        SeenState::InProgress
    })
    &&& new.updated_at@ == (if prev.progress != p {
        prev.updated_at@.push(now)
    } else {
        prev.updated_at@
    })
    &&& opt_str_eq(
        new.provider_watched_on,
        chosen_provenance(input.provider_watched_on, prev.provider_watched_on),
    )
    &&& new.finished_on == (if p.hundredths == PROGRESS_FULL {
        Option::Some(now_day)
    } else {
        prev.finished_on
    })
    &&& new.started_on == prev.started_on
    &&& new.show_extra_information == prev.show_extra_information
    &&& new.podcast_extra_information == prev.podcast_extra_information
    &&& new.anime_extra_information == prev.anime_extra_information
    &&& new.manga_extra_information == (if input.manga_chapter_number is Some {
        Option::Some(
            SeenMangaExtraInformation {
                chapter: input.manga_chapter_number,
                volume: input.manga_volume_number,
            },
        )
    } else {
        prev.manga_extra_information
    })
}

/// How a state change relates to the record it replaces: the target state is
/// stored (a full-progress record asked back into `InProgress` is stored as
/// `Completed`), a timestamp is appended, the provenance is refreshed and
/// everything else is kept.
pub open spec fn state_changed_ok(
    prev: SeenRecord,
    new: SeenRecord,
    input: ProgressUpdateInput,
    now: i64,
) -> bool {
    let target = input.change_state.unwrap();
    &&& new.state == (if prev.progress.hundredths == PROGRESS_FULL && target
        == SeenState::InProgress {
        SeenState::Completed
    } else {
        target
    })
    &&& new.progress == prev.progress
    &&& new.updated_at@ == prev.updated_at@.push(now)
    &&& opt_str_eq(
        new.provider_watched_on,
        chosen_provenance(input.provider_watched_on, prev.provider_watched_on),
    )
    &&& new.finished_on == prev.finished_on
    &&& new.started_on == prev.started_on
    &&& new.show_extra_information == prev.show_extra_information
    &&& new.podcast_extra_information == prev.podcast_extra_information
    &&& new.anime_extra_information == prev.anime_extra_information
    &&& new.manga_extra_information == prev.manga_extra_information
}

/// What a freshly created session holds. Only a just-started session gets a
/// start date; a session filed for the past or for today carries full
/// progress and the reported completion date; the episode coordinate follows
/// the media kind.
pub open spec fn fresh_session_ok(
    new: SeenRecord,
    input: ProgressUpdateInput,
    action: ProgressUpdateAction,
    lot: MediaLot,
    now: i64,
    now_day: i64,
) -> bool {
    let p = if action == ProgressUpdateAction::JustStarted {
        input.progress.unwrap()
    } else {
        FixedValue { hundredths: PROGRESS_FULL }
    };
    &&& new.progress == p
    &&& new.state == (if p.hundredths == PROGRESS_FULL {
        SeenState::Completed
    } else {
        SeenState::InProgress
    })
    &&& new.started_on == (if action == ProgressUpdateAction::JustStarted {
        Option::Some(now_day)
    } else {
        Option::<i64>::None
    })
    &&& new.finished_on == (if action == ProgressUpdateAction::JustStarted {
        Option::<i64>::None
    } else {
        input.date
    })
    &&& new.updated_at@ == seq![now]
    &&& opt_str_eq(new.provider_watched_on, input.provider_watched_on)
    &&& new.show_extra_information == (if lot == MediaLot::Show {
        Option::Some(
            SeenShowExtraInformation {
                season: input.show_season_number.unwrap(),
                episode: input.show_episode_number.unwrap(),
            },
        )
    } else {
        Option::<SeenShowExtraInformation>::None
    })
    &&& new.podcast_extra_information == (if lot == MediaLot::Podcast {
        Option::Some(SeenPodcastExtraInformation { episode: input.podcast_episode_number.unwrap() })
    } else {
        Option::<SeenPodcastExtraInformation>::None
    })
    &&& new.anime_extra_information == (if lot == MediaLot::Anime {
        Option::Some(SeenAnimeExtraInformation { episode: input.anime_episode_number })
    } else {
        Option::<SeenAnimeExtraInformation>::None
    })
    &&& new.manga_extra_information == (if lot == MediaLot::Manga {
        Option::Some(
            SeenMangaExtraInformation {
                chapter: input.manga_chapter_number,
                volume: input.manga_volume_number,
            },
        )
    } else {
        Option::<SeenMangaExtraInformation>::None
    })
}

/// The coordinate a creation demands for the media kind, or the validation
/// error that rejects the report before any write.
pub open spec fn coordinate_check(input: ProgressUpdateInput, lot: MediaLot) -> Option<
    ProgressUpdateErrorVariant,
> {
    if lot == MediaLot::Show && input.show_season_number is None {
        Option::Some(ProgressUpdateErrorVariant::MissingSeasonNumber)
    } else if lot == MediaLot::Show && input.show_episode_number is None {
        Option::Some(ProgressUpdateErrorVariant::MissingEpisodeNumber)
    } else if lot == MediaLot::Podcast && input.podcast_episode_number is None {
        Option::Some(ProgressUpdateErrorVariant::MissingEpisodeNumber)
    } else {
        Option::None
    }
}

/// Law: a continued session written at full progress is stored as
/// `Completed`, with its finish date set to the current day.
pub proof fn lemma_full_progress_forces_completed(
    prev: SeenRecord,
    new: SeenRecord,
    input: ProgressUpdateInput,
    now: i64,
    now_day: i64,
)
    requires
        continued_ok(prev, new, input, now, now_day),
        input.progress is Some,
        input.progress.unwrap().hundredths == PROGRESS_FULL,
    ensures
        new.state == SeenState::Completed,
        new.finished_on == Option::Some(now_day),
{
}

/// Law: a session filed as freshly completed (for today or for the past) is
/// stored as `Completed`, with the reported completion date as its finish
/// date.
pub proof fn lemma_fresh_completion_completed(
    new: SeenRecord,
    input: ProgressUpdateInput,
    action: ProgressUpdateAction,
    lot: MediaLot,
    now: i64,
    now_day: i64,
)
    requires
        fresh_session_ok(new, input, action, lot, now, now_day),
        action == ProgressUpdateAction::Now || action == ProgressUpdateAction::InThePast,
    ensures
        new.state == SeenState::Completed,
        new.finished_on == input.date,
{
}

/// Law: a report below full progress with no open session creates a record
/// in progress, with its start date set and no finish date.
pub proof fn lemma_started_session_dates(
    new: SeenRecord,
    input: ProgressUpdateInput,
    lot: MediaLot,
    now: i64,
    now_day: i64,
)
    requires
        fresh_session_ok(new, input, ProgressUpdateAction::JustStarted, lot, now, now_day),
        input.progress is Some,
        input.progress.unwrap().hundredths < PROGRESS_FULL,
    ensures
        new.state == SeenState::InProgress,
        new.started_on == Option::Some(now_day),
        new.finished_on is None,
        new.progress == input.progress.unwrap(),
{
}

/// Law: the touch history is append-only: any record the engine rewrites
/// carries its predecessor's history as a prefix.
pub proof fn lemma_updated_at_append_only(
    prev: SeenRecord,
    new: SeenRecord,
    input: ProgressUpdateInput,
    now: i64,
    now_day: i64,
)
    requires
        continued_ok(prev, new, input, now, now_day) || state_changed_ok(prev, new, input, now),
    ensures
        new.updated_at@.len() >= prev.updated_at@.len(),
        new.updated_at@.subrange(0, prev.updated_at@.len() as int) == prev.updated_at@,
{
    if new.updated_at@ == prev.updated_at@ {
        assert(new.updated_at@.subrange(0, prev.updated_at@.len() as int) =~= prev.updated_at@);
    } else {
        assert(new.updated_at@ == prev.updated_at@.push(now));
        assert(new.updated_at@.subrange(0, prev.updated_at@.len() as int) =~= prev.updated_at@);
    }
}

fn copy_times(v: &Vec<i64>) -> (r: Vec<i64>)
    ensures
        r@ == v@,
{
    let mut r: Vec<i64> = Vec::new();
    let mut i: usize = 0;
    while i < v.len()
        invariant
            0 <= i <= v@.len(),
            r@ == v@.subrange(0, i as int),
        decreases v@.len() - i,
    {
        r.push(v[i]);
        assert(r@ =~= v@.subrange(0, i + 1 as int));
        i += 1;
    }
    assert(r@ =~= v@);
    r
}

fn clone_opt_string(a: &Option<String>) -> (r: Option<String>)
    ensures
        opt_str_eq(r, *a),
        r is Some <==> *a is Some,
{
    match a {
        Some(s) => Some(s.clone()),
        None => None,
    }
}

fn opt_string_eq(a: &Option<String>, b: &Option<String>) -> (r: bool)
    ensures
        r == opt_str_eq(*a, *b),
{
    match (a, b) {
        (None, None) => true,
        (Some(x), Some(y)) => x.eq(y),
        _ => false,
    }
}

fn choose_provenance(reported: &Option<String>, prior: &Option<String>) -> (r: Option<String>)
    ensures
        opt_str_eq(r, chosen_provenance(*reported, *prior)),
{
    match reported {
        Some(s) => Some(s.clone()),
        None => clone_opt_string(prior),
    }
}

/// Find the most recent open session.
pub fn find_open_index(history: &Vec<SeenRecord>) -> (r: Option<usize>)
    ensures
        match r {
            Option::Some(i) => latest_open_index(history@) == i as int,
            Option::None => latest_open_index(history@) == -1,
        },
{
    let mut i: usize = history.len();
    proof {
        assert(history@.subrange(0, history@.len() as int) =~= history@);
    }
    while i > 0
        invariant
            0 <= i <= history@.len(),
            latest_open_index(history@) == latest_open_index(history@.subrange(0, i as int)),
        decreases i,
    {
        let sub = Ghost(history@.subrange(0, i as int));
        let rec = &history[i - 1];
        if rec.progress.hundredths < PROGRESS_FULL && !matches!(rec.state, SeenState::Dropped) {
            proof {
                assert(is_open_session(sub@[i - 1]));
            }
            return Some(i - 1);
        }
        proof {
            assert(!is_open_session(sub@[i - 1]));
            assert(sub@.drop_last() =~= history@.subrange(0, i - 1));
        }
        i -= 1;
    }
    None
}

/// Apply one progress report to the session history of one (user, metadata)
/// pair. `today` is the current date in the configured timezone, `now` the
/// current instant as epoch seconds, `now_day` the current date in UTC.
/// `cache_hit` reports whether the idempotency cache holds a fresh identical
/// completion; with `respect_cache` set, such a report is rejected before
/// any write.
pub fn update_progress(
    history: &mut Vec<SeenRecord>,
    lot: MediaLot,
    input: &ProgressUpdateInput,
    today: i64,
    now: i64,
    now_day: i64,
    respect_cache: bool,
    cache_hit: bool,
) -> (r: Result<ProgressUpdateOutcome, ProgressUpdateErrorVariant>)
    ensures
        r is Err ==> final(history)@ == old(history)@,
        respect_cache && cache_hit ==> r == Result::<
            ProgressUpdateOutcome,
            ProgressUpdateErrorVariant,
        >::Err(ProgressUpdateErrorVariant::AlreadySeen),
        !(respect_cache && cache_hit) ==> ({
            let h0 = old(history)@;
            let h1 = final(history)@;
            let open = latest_open_index(h0);
            match spec_select_action(*input, open >= 0, today) {
                Result::Err(e) => r == Result::<
                    ProgressUpdateOutcome,
                    ProgressUpdateErrorVariant,
                >::Err(e),
                Result::Ok(action) => match action {
                    ProgressUpdateAction::Update => {
                        if is_no_progress_change(h0[open], *input) {
                            r == Result::<
                                ProgressUpdateOutcome,
                                ProgressUpdateErrorVariant,
                            >::Err(ProgressUpdateErrorVariant::NoProgressChange)
                        } else {
                            &&& r is Ok
                            &&& r.unwrap().index == open
                            &&& h1.len() == h0.len()
                            &&& forall|k: int| 0 <= k < h0.len() && k != open ==> h1[k] == h0[k]
                            &&& continued_ok(h0[open], h1[open], *input, now, now_day)
                            &&& r.unwrap().completed == (h1[open].state == SeenState::Completed)
                        }
                    },
                    ProgressUpdateAction::ChangeState => {
                        if h0.len() == 0 {
                            r == Result::<
                                ProgressUpdateOutcome,
                                ProgressUpdateErrorVariant,
                            >::Err(ProgressUpdateErrorVariant::NoActiveSession)
                        } else {
                            let last = h0.len() - 1;
                            &&& r is Ok
                            &&& r.unwrap().index == last
                            &&& h1.len() == h0.len()
                            &&& forall|k: int| 0 <= k < h0.len() && k != last ==> h1[k] == h0[k]
                            &&& state_changed_ok(h0[last], h1[last], *input, now)
                            &&& r.unwrap().completed == (h1[last].state == SeenState::Completed)
                        }
                    },
                    _ => {
                        match coordinate_check(*input, lot) {
                            Option::Some(e) => r == Result::<
                                ProgressUpdateOutcome,
                                ProgressUpdateErrorVariant,
                            >::Err(e),
                            Option::None => {
                                &&& r is Ok
                                &&& r.unwrap().index == h0.len()
                                &&& h1.len() == h0.len() + 1
                                &&& forall|k: int| 0 <= k < h0.len() ==> h1[k] == h0[k]
                                &&& fresh_session_ok(h1[h0.len() as int], *input, action, lot, now, now_day)
                                &&& r.unwrap().completed == (h1[h0.len() as int].state
                                    == SeenState::Completed)
                            },
                        }
                    },
                },
            }
        }),
{
    if respect_cache && cache_hit {
        return Err(ProgressUpdateErrorVariant::AlreadySeen);
    }
    let open_idx = find_open_index(history);
    let action = match select_progress_action(input, open_idx.is_some(), today) {
        Ok(a) => a,
        Err(e) => {
            return Err(e);
        },
    };
    proof {
        lemma_latest_open_index(history@);
    }
    match action {
        ProgressUpdateAction::Update => {
            let i = match open_idx {
                Some(i) => i,
                None => {
                    // Action selection yields `Update` only over an open session.
                    proof {
                        assert(false);
                    }
                    return Err(ProgressUpdateErrorVariant::NoActiveSession);
                },
            };
            let p = match &input.progress {
                Some(p) => *p,
                None => {
                    proof {
                        assert(false);
                    }
                    return Err(ProgressUpdateErrorVariant::MissingProgressOrState);
                },
            };
            let prev = &history[i];
            if prev.progress == p && opt_string_eq(&prev.provider_watched_on, &input.provider_watched_on) {
                return Err(ProgressUpdateErrorVariant::NoProgressChange);
            }
            let mut updated_at = copy_times(&prev.updated_at);
            if prev.progress != p {
                updated_at.push(now);
            }
            let state = if p.hundredths == PROGRESS_FULL {
                SeenState::Completed
            } else {
                SeenState::InProgress
            };
            let finished_on = if p.hundredths == PROGRESS_FULL {
                Some(now_day)
            } else {
                prev.finished_on
            };
            let manga_extra_information = if input.manga_chapter_number.is_some() {
                Some(
                    SeenMangaExtraInformation {
                        chapter: input.manga_chapter_number,
                        volume: input.manga_volume_number,
                    },
                )
            } else {
                prev.manga_extra_information
            };
            let completed = matches!(state, SeenState::Completed);
            let rec = SeenRecord {
                state,
                progress: p,
                started_on: prev.started_on,
                finished_on,
                updated_at,
                provider_watched_on: choose_provenance(
                    &input.provider_watched_on,
                    &prev.provider_watched_on,
                ),
                show_extra_information: prev.show_extra_information,
                podcast_extra_information: prev.podcast_extra_information,
                anime_extra_information: prev.anime_extra_information,
                manga_extra_information,
            };
            history.set(i, rec);
            Ok(ProgressUpdateOutcome { index: i, completed })
        },
        ProgressUpdateAction::ChangeState => {
            let target = match &input.change_state {
                Some(s) => *s,
                None => {
                    proof {
                        assert(false);
                    }
                    return Err(ProgressUpdateErrorVariant::MissingProgressOrState);
                },
            };
            if history.len() == 0 {
                return Err(ProgressUpdateErrorVariant::NoActiveSession);
            }
            let i = history.len() - 1;
            let prev = &history[i];
            let state = if prev.progress.hundredths == PROGRESS_FULL && matches!(
                target,
                SeenState::InProgress,
            ) {
                SeenState::Completed
            } else {
                target
            };
            let mut updated_at = copy_times(&prev.updated_at);
            updated_at.push(now);
            let completed = matches!(state, SeenState::Completed);
            let rec = SeenRecord {
                state,
                progress: prev.progress,
                started_on: prev.started_on,
                finished_on: prev.finished_on,
                updated_at,
                provider_watched_on: choose_provenance(
                    &input.provider_watched_on,
                    &prev.provider_watched_on,
                ),
                show_extra_information: prev.show_extra_information,
                podcast_extra_information: prev.podcast_extra_information,
                anime_extra_information: prev.anime_extra_information,
                manga_extra_information: prev.manga_extra_information,
            };
            history.set(i, rec);
            Ok(ProgressUpdateOutcome { index: i, completed })
        },
        _ => {
            let show_extra_information = if matches!(lot, MediaLot::Show) {
                let season = match &input.show_season_number {
                    Some(s) => *s,
                    None => {
                        return Err(ProgressUpdateErrorVariant::MissingSeasonNumber);
                    },
                };
                let episode = match &input.show_episode_number {
                    Some(e) => *e,
                    None => {
                        return Err(ProgressUpdateErrorVariant::MissingEpisodeNumber);
                    },
                };
                Some(SeenShowExtraInformation { season, episode })
            } else {
                None
            };
            let podcast_extra_information = if matches!(lot, MediaLot::Podcast) {
                let episode = match &input.podcast_episode_number {
                    Some(e) => *e,
                    None => {
                        return Err(ProgressUpdateErrorVariant::MissingEpisodeNumber);
                    },
                };
                Some(SeenPodcastExtraInformation { episode })
            } else {
                None
            };
            let anime_extra_information = if matches!(lot, MediaLot::Anime) {
                Some(SeenAnimeExtraInformation { episode: input.anime_episode_number })
            } else {
                None
            };
            let manga_extra_information = if matches!(lot, MediaLot::Manga) {
                Some(
                    SeenMangaExtraInformation {
                        chapter: input.manga_chapter_number,
                        volume: input.manga_volume_number,
                    },
                )
            } else {
                None
            };
            let just_started = matches!(action, ProgressUpdateAction::JustStarted);
            let p = if just_started {
                match &input.progress {
                    Some(p) => *p,
                    None => {
                        proof {
                            assert(false);
                        }
                        return Err(ProgressUpdateErrorVariant::MissingProgressOrState);
                    },
                }
            } else {
                FixedValue { hundredths: PROGRESS_FULL }
            };
            let started_on = if just_started {
                Some(now_day)
            } else {
                None
            };
            let finished_on = if just_started {
                None
            } else {
                input.date
            };
            let state = if p.hundredths == PROGRESS_FULL {
                SeenState::Completed
            } else {
                SeenState::InProgress
            };
            let mut updated_at: Vec<i64> = Vec::new();
            updated_at.push(now);
            let completed = matches!(state, SeenState::Completed);
            let index = history.len();
            let rec = SeenRecord {
                state,
                progress: p,
                started_on,
                finished_on,
                updated_at,
                provider_watched_on: clone_opt_string(&input.provider_watched_on),
                show_extra_information,
                podcast_extra_information,
                anime_extra_information,
                manga_extra_information,
            };
            history.push(rec);
            Ok(ProgressUpdateOutcome { index, completed })
        },
    }
}

} // verus!
