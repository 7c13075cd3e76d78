//! Import replay: map canonical import items through the progress engine
//! and review conversion, one item at a time. A failure is always
//! per-item: one bad item is recorded in the failed list with a step tag
//! and the batch continues.

use vstd::prelude::*;
use vstd::seq_lib::group_to_multiset_ensures;
use vstd::assert_multisets_equal;
use crate::{FixedValue, PROGRESS_FULL};
use crate::progress::{
    update_progress, ProgressUpdateErrorVariant, ProgressUpdateInput, opt_str_eq,
};
use crate::stats::{MeasurementEvent, WorkoutEvent};
use crate::types::{MediaLot, SeenRecord};

verus! {

/// The step of the import pipeline a failed item failed at.
#[derive(Clone, Copy, Debug, PartialEq, Eq, Structural)]
pub enum ImportFailStep {
    ItemDetailsFromSource,
    MediaDetailsFromProvider,
    SeenHistoryConversion,
    ReviewConversion,
    InputTransformation,
}

/// One item the import could not replay, tagged with its failing step.
#[derive(Clone, Debug)]
pub struct ImportFailedItem {
    pub lot: Option<MediaLot>,
    pub step: ImportFailStep,
    pub identifier: String,
    pub error: Option<String>,
}

/// How many items one import attempted.
#[derive(Clone, Copy, Debug, PartialEq, Eq, Structural)]
pub struct ImportDetails {
    pub total: usize,
}

/// One successfully replayed item.
#[derive(Clone, Debug)]
pub enum ImportCompletedItem {
    Metadata(u64),
    Workout,
    Measurement,
    Collection(String),
}

/// What one import run reports back.
#[derive(Clone, Debug)]
pub struct ImportResultResponse {
    pub import: ImportDetails,
    pub completed: Vec<ImportCompletedItem>,
    pub failed_items: Vec<ImportFailedItem>,
}

/// Who may read a posted review.
#[derive(Clone, Copy, Debug, PartialEq, Eq, Structural)]
pub enum Visibility {
    Public,
    Private,
}

/// The entity a review or collection entry points at.
#[derive(Clone, Copy, Debug, PartialEq, Eq, Structural)]
pub enum EntityLot {
    Metadata,
    MetadataGroup,
    Person,
}

/// How a user's review ratings are scaled.
#[derive(Clone, Copy, Debug, PartialEq, Eq, Structural)]
pub enum UserReviewScale {
    OutOfFive,
    OutOfHundred,
}

/// One review ready to post.
#[derive(Clone, Debug)]
pub struct PostReviewInput {
    pub rating: Option<FixedValue>,
    pub text: Option<String>,
    pub is_spoiler: Option<bool>,
    pub visibility: Option<Visibility>,
    pub date: Option<i64>,
    pub entity_id: u64,
    pub entity_lot: EntityLot,
    pub show_season_number: Option<i32>,
    pub show_episode_number: Option<i32>,
    pub podcast_episode_number: Option<i32>,
    pub manga_chapter_number: Option<FixedValue>,
}

/// One imported review, as the source parser hands it over.
#[derive(Clone, Debug)]
pub struct ImportOrExportItemRating {
    pub rating: Option<FixedValue>,
    pub text: Option<String>,
    pub spoiler: Option<bool>,
    pub date: Option<i64>,
    pub visibility: Option<Visibility>,
    pub show_season_number: Option<i32>,
    pub show_episode_number: Option<i32>,
    pub podcast_episode_number: Option<i32>,
    pub manga_chapter_number: Option<FixedValue>,
}

/// One imported consumption record, as the source parser hands it over.
#[derive(Clone, Debug)]
pub struct ImportSeenItem {
    pub progress: Option<FixedValue>,
    pub ended_on: Option<i64>,
    pub show_season_number: Option<i32>,
    pub show_episode_number: Option<i32>,
    pub podcast_episode_number: Option<i32>,
    pub anime_episode_number: Option<i32>,
    pub manga_chapter_number: Option<FixedValue>,
    pub manga_volume_number: Option<i32>,
    pub provider_watched_on: Option<String>,
}

/// One media item of an import batch.
#[derive(Clone, Debug)]
pub struct ImportMediaItem {
    pub source_id: String,
    pub identifier: String,
    pub lot: MediaLot,
    pub seen_history: Vec<ImportSeenItem>,
    pub reviews: Vec<ImportOrExportItemRating>,
    pub collections: Vec<String>,
}

/// One canonical import batch.
#[derive(Clone, Debug)]
pub struct ImportResult {
    pub collections: Vec<String>,
    pub media: Vec<ImportMediaItem>,
    pub workouts: Vec<WorkoutEvent>,
    pub measurements: Vec<MeasurementEvent>,
    pub failed_items: Vec<ImportFailedItem>,
}

/// The rating a review is stored with: a five-star rating is rescaled to
/// one hundred, truncated to two decimal places.
pub open spec fn spec_converted_rating(
    rating: Option<FixedValue>,
    scale: UserReviewScale,
) -> Option<FixedValue> {
    match rating {
        Option::None => Option::None,
        Option::Some(r) => match scale {
            UserReviewScale::OutOfFive => Option::Some(
                FixedValue {
                    hundredths: if r.hundredths >= 0 {
                        ((r.hundredths as int) / 20) as i64
                    } else {
                        0
                    },
                },
            ),
            UserReviewScale::OutOfHundred => Option::Some(r),
        },
    }
}

/// Whether a review carries anything worth posting.
pub open spec fn spec_review_has_content(review: ImportOrExportItemRating) -> bool {
    review.text is Some || review.rating is Some
}

/// Turn an imported review into a post, or nothing when it has no content.
pub fn convert_review_into_input(
    review: &ImportOrExportItemRating,
    scale: UserReviewScale,
    entity_id: u64,
    entity_lot: EntityLot,
) -> (r: Option<PostReviewInput>)
    ensures
        r is Some <==> spec_review_has_content(*review),
        r is Some ==> {
            let p = r.unwrap();
            &&& p.rating == spec_converted_rating(review.rating, scale)
            &&& opt_str_eq(p.text, review.text)
            &&& p.is_spoiler == (if review.text is Some {
                Option::Some(review.spoiler.unwrap_or(false))
            } else {
                Option::<bool>::None
            })
            &&& p.visibility == review.visibility
            &&& p.date == (if review.text is Some {
                review.date
            } else {
                Option::<i64>::None
            })
            &&& p.entity_id == entity_id
            &&& p.entity_lot == entity_lot
            &&& p.show_season_number == review.show_season_number
            &&& p.show_episode_number == review.show_episode_number
            &&& p.podcast_episode_number == review.podcast_episode_number
            &&& p.manga_chapter_number == review.manga_chapter_number
        },
{
    if review.text.is_none() && review.rating.is_none() {
        return None;
    }
    let rating = match &review.rating {
        None => None,
        Some(r) => match scale {
            UserReviewScale::OutOfFive => Some(
                FixedValue {
                    hundredths: if r.hundredths >= 0 {
                        r.hundredths / 20
                    } else {
                        0
                    },
                },
            ),
            UserReviewScale::OutOfHundred => Some(*r),
        },
    };
    let has_text = review.text.is_some();
    let text = match &review.text {
        Some(t) => Some(t.clone()),
        None => None,
    };
    let is_spoiler = if has_text {
        Some(
            match review.spoiler {
                Some(s) => s,
                None => false,
            },
        )
    } else {
        None
    };
    let date = if has_text {
        review.date
    } else {
        None
    };
    Some(
        PostReviewInput {
            rating,
            text,
            is_spoiler,
            visibility: review.visibility,
            date,
            entity_id,
            entity_lot,
            show_season_number: review.show_season_number,
            show_episode_number: review.show_episode_number,
            podcast_episode_number: review.podcast_episode_number,
            manga_chapter_number: review.manga_chapter_number,
        },
    )
}

/// The sort key of an imported consumption record: its end date, with the
/// epoch standing in when none is given.
pub open spec fn spec_seen_sort_key(s: ImportSeenItem) -> i64 {
    match s.ended_on {
        Option::Some(d) => d,
        Option::None => 0,
    }
}

fn seen_sort_key(s: &ImportSeenItem) -> (k: i64)
    ensures
        k == spec_seen_sort_key(*s),
{
    match s.ended_on {
        Some(d) => d,
        None => 0,
    }
}

/// Sort imported consumption records by end date, ascending: the same
/// records, in replay order.
pub fn sort_seen_history(v: Vec<ImportSeenItem>) -> (r: Vec<ImportSeenItem>)
    ensures
        r@.to_multiset() == v@.to_multiset(),
        r@.len() == v@.len(),
        forall|a: int, b: int|
            0 <= a < b < r@.len() ==> spec_seen_sort_key(#[trigger] r@[a]) <= spec_seen_sort_key(
                #[trigger] r@[b],
            ),
{
    broadcast use group_to_multiset_ensures;

    let mut rest = v;
    let mut out: Vec<ImportSeenItem> = Vec::new();
    proof {
        assert_multisets_equal!(out@.to_multiset().add(rest@.to_multiset()), rest@.to_multiset());
    }
    while rest.len() > 0
        invariant
            out@.to_multiset().add(rest@.to_multiset()) == v@.to_multiset(),
            out@.len() + rest@.len() == v@.len(),
            forall|a: int, b: int|
                0 <= a < b < out@.len() ==> spec_seen_sort_key(#[trigger] out@[a])
                    <= spec_seen_sort_key(#[trigger] out@[b]),
            forall|a: int, b: int|
                0 <= a < out@.len() && 0 <= b < rest@.len() ==> spec_seen_sort_key(
                    #[trigger] out@[a],
                ) <= spec_seen_sort_key(#[trigger] rest@[b]),
        decreases rest@.len(),
    {
        let mut min_idx: usize = 0;
        let mut min_key: i64 = seen_sort_key(&rest[0]);
        let mut j: usize = 1;
        while j < rest.len()
            invariant
                0 <= min_idx < j <= rest@.len(),
                rest@.len() > 0,
                min_key == spec_seen_sort_key(rest@[min_idx as int]),
                forall|k: int| 0 <= k < j ==> min_key <= spec_seen_sort_key(#[trigger] rest@[k]),
            decreases rest@.len() - j,
        {
            let k = seen_sort_key(&rest[j]);
            if k < min_key {
                min_idx = j;
                min_key = k;
            }
            j += 1;
        }
        let ghost out_before = out@;
        let ghost rest_before = rest@;
        let item = rest.remove(min_idx);
        out.push(item);
        proof {
            assert(rest@ == rest_before.remove(min_idx as int));
            vstd::seq_lib::to_multiset_remove(rest_before, min_idx as int);
            vstd::seq_lib::to_multiset_build(out_before, rest_before[min_idx as int]);
            assert(out@ == out_before.push(rest_before[min_idx as int]));
            assert(rest_before.contains(rest_before[min_idx as int]));
            vstd::seq_lib::to_multiset_contains(rest_before, rest_before[min_idx as int]);
            assert(rest_before.to_multiset().count(rest_before[min_idx as int]) > 0);
            assert_multisets_equal!(
                out@.to_multiset().add(rest@.to_multiset()),
                out_before.to_multiset().add(rest_before.to_multiset()));
            assert forall|b: int| 0 <= b < rest@.len() implies min_key <= spec_seen_sort_key(
                #[trigger] rest@[b],
            ) by {
                if b < min_idx {
                    assert(rest@[b] == rest_before[b]);
                } else {
                    assert(rest@[b] == rest_before[b + 1]);
                }
            }
        }
    }
    proof {
        assert(rest@.to_multiset().len() == 0);
        assert_multisets_equal!(out@.to_multiset(), v@.to_multiset());
    }
    out
}

/// One completed entry per imported collection name.
pub open spec fn collections_completed(names: Seq<String>) -> Seq<ImportCompletedItem> {
    Seq::new(names.len(), |i: int| ImportCompletedItem::Collection(names[i]))
}

/// One completed entry per media item whose provider lookup succeeded, in
/// order.
pub open spec fn media_completed(commits: Seq<Result<u64, String>>) -> Seq<ImportCompletedItem>
    decreases commits.len(),
{
    if commits.len() == 0 {
        Seq::empty()
    } else {
        media_completed(commits.drop_last()) + (match commits.last() {
            Result::Ok(id) => seq![ImportCompletedItem::Metadata(id)],
            Result::Err(_) => Seq::empty(),
        })
    }
}

/// How many media items failed their provider lookup.
pub open spec fn count_commit_errors(commits: Seq<Result<u64, String>>) -> int
    decreases commits.len(),
{
    if commits.len() == 0 {
        0
    } else {
        count_commit_errors(commits.drop_last()) + (if commits.last() is Err {
            1int
        } else {
            0int
        })
    }
}

/// Every completed entry one import run reports.
pub open spec fn spec_completed(
    import: ImportResult,
    commits: Seq<Result<u64, String>>,
) -> Seq<ImportCompletedItem> {
    collections_completed(import.collections@) + media_completed(commits) + Seq::new(
        import.workouts@.len(),
        |i: int| ImportCompletedItem::Workout,
    ) + Seq::new(import.measurements@.len(), |i: int| ImportCompletedItem::Measurement)
}

/// A provider-lookup failure entry matches some failed commit: same source
/// identifier, the item's kind, and the provider's error text.
pub open spec fn commit_failure_entry_ok(
    entry: ImportFailedItem,
    media: Seq<ImportMediaItem>,
    commits: Seq<Result<u64, String>>,
) -> bool {
    exists|k: int|
        0 <= k < media.len() && #[trigger] commits[k] is Err && entry.identifier@
            == media[k].source_id@ && entry.lot == Option::Some(media[k].lot) && entry.error
            is Some && entry.error.unwrap()@ == commits[k]->Err_0@
}

/// How many entries of a failed list are provider-lookup failures.
pub open spec fn count_mdp(failed: Seq<ImportFailedItem>) -> int
    decreases failed.len(),
{
    if failed.len() == 0 {
        0
    } else {
        count_mdp(failed.drop_last()) + (if failed.last().step
            == ImportFailStep::MediaDetailsFromProvider {
            1int
        } else {
            0int
        })
    }
}

proof fn lemma_count_mdp_add(a: Seq<ImportFailedItem>, b: Seq<ImportFailedItem>)
    ensures
        count_mdp(a + b) == count_mdp(a) + count_mdp(b),
    decreases b.len(),
{
    if b.len() == 0 {
        assert(a + b =~= a);
    } else {
        lemma_count_mdp_add(a, b.drop_last());
        assert((a + b).drop_last() =~= a + b.drop_last());
        assert((a + b).last() == b.last());
    }
}

fn clone_opt_str(a: &Option<String>) -> (r: Option<String>)
    ensures
        opt_str_eq(r, *a),
        r is Some <==> *a is Some,
{
    match a {
        Some(s) => Some(s.clone()),
        None => None,
    }
}

/// How many content-bearing reviews a list holds.
pub open spec fn count_content_reviews(reviews: Seq<ImportOrExportItemRating>) -> int
    decreases reviews.len(),
{
    if reviews.len() == 0 {
        0
    } else {
        count_content_reviews(reviews.drop_last()) + (if spec_review_has_content(reviews.last()) {
            1int
        } else {
            0int
        })
    }
}

/// How many reviews the first `n` media items contribute for posting:
/// every content-bearing review of every item whose provider lookup
/// succeeded.
pub open spec fn posted_review_count(
    media: Seq<ImportMediaItem>,
    commits: Seq<Result<u64, String>>,
    n: int,
) -> int
    decreases n,
{
    if n <= 0 {
        0
    } else {
        posted_review_count(media, commits, n - 1) + (if commits[n - 1] is Ok {
            count_content_reviews(media[n - 1].reviews@)
        } else {
            0int
        })
    }
}

/// What one import run hands back: the response, the per-item session
/// histories after replay, and the converted reviews left for posting.
#[derive(Clone, Debug)]
pub struct ImportProcessOutcome {
    pub response: ImportResultResponse,
    pub histories: Vec<Vec<SeenRecord>>,
    pub reviews_to_post: Vec<PostReviewInput>,
}

/// Replay one canonical import batch: register its collections, replay
/// each media item's consumption history through the progress engine in
/// end-date order, convert its reviews, and record its workouts and
/// measurements. `commit_results` carries, per media item, the committed
/// metadata id or the provider's error; `histories` carries each item's
/// stored session history. One bad item never aborts the batch: a failed
/// provider lookup or an invalid consumption record is tagged in the failed
/// list and replay continues.
pub fn process_import(
    import: ImportResult,
    commit_results: &Vec<Result<u64, String>>,
    histories: Vec<Vec<SeenRecord>>,
    scale: UserReviewScale,
    today: i64,
    now: i64,
    now_day: i64,
) -> (r: ImportProcessOutcome)
    requires
        commit_results@.len() == import.media@.len(),
        histories@.len() == import.media@.len(),
        import.collections@.len() + import.media@.len() + import.workouts@.len()
            + import.measurements@.len() <= usize::MAX,
    ensures
        r.response.import.total == import.collections@.len() + import.media@.len()
            + import.workouts@.len() + import.measurements@.len(),
        r.response.completed@ == spec_completed(import, commit_results@),
        r.histories@.len() == import.media@.len(),
        r.response.failed_items@.len() >= import.failed_items@.len(),
        r.response.failed_items@.subrange(0, import.failed_items@.len() as int)
            == import.failed_items@,
        forall|j: int|
            import.failed_items@.len() <= j < r.response.failed_items@.len() ==> {
                let entry = #[trigger] r.response.failed_items@[j];
                ||| (entry.step == ImportFailStep::MediaDetailsFromProvider
                    && commit_failure_entry_ok(entry, import.media@, commit_results@))
                ||| entry.step == ImportFailStep::SeenHistoryConversion
            },
        count_mdp(r.response.failed_items@) == count_mdp(import.failed_items@)
            + count_commit_errors(commit_results@),
        r.reviews_to_post@.len() == posted_review_count(
            import.media@,
            commit_results@,
            import.media@.len() as int,
        ),
        forall|j: int|
            0 <= j < r.reviews_to_post@.len() ==> {
                let p = #[trigger] r.reviews_to_post@[j];
                p.entity_lot == EntityLot::Metadata && exists|k: int|
                    0 <= k < commit_results@.len() && #[trigger] commit_results@[k] is Ok
                        && p.entity_id == commit_results@[k]->Ok_0
            },
{
    let ghost import0 = import;
    let ImportResult { collections, media, workouts, measurements, failed_items } = import;
    let ghost orig_media = media@;
    let ghost init_failed = failed_items@;
    let total = collections.len() + media.len() + workouts.len() + measurements.len();

    let mut completed: Vec<ImportCompletedItem> = Vec::new();
    let mut i: usize = 0;
    while i < collections.len()
        invariant
            0 <= i <= collections@.len(),
            completed@ == collections_completed(collections@.take(i as int)),
        decreases collections@.len() - i,
    {
        completed.push(ImportCompletedItem::Collection(collections[i].clone()));
        proof {
            assert(completed@ =~= collections_completed(collections@.take(i + 1)));
        }
        i += 1;
    }
    proof {
        assert(collections@.take(collections@.len() as int) =~= collections@);
    }

    let mut new_failed: Vec<ImportFailedItem> = Vec::new();
    let mut histories_in = histories;
    let mut histories_out: Vec<Vec<SeenRecord>> = Vec::new();
    let mut reviews_to_post: Vec<PostReviewInput> = Vec::new();
    let mut media_rest = media;
    let mut k: usize = 0;
    proof {
        assert(media_rest@ =~= orig_media.skip(0));
    }
    while k < commit_results.len()
        invariant
            0 <= k <= commit_results@.len(),
            commit_results@.len() == orig_media.len(),
            media_rest@ == orig_media.skip(k as int),
            histories_in@.len() == orig_media.len() - k,
            histories_out@.len() == k,
            completed@ == collections_completed(collections@) + media_completed(
                commit_results@.take(k as int),
            ),
            forall|j: int|
                0 <= j < new_failed@.len() ==> {
                    let entry = #[trigger] new_failed@[j];
                    ||| (entry.step == ImportFailStep::MediaDetailsFromProvider
                        && commit_failure_entry_ok(entry, orig_media, commit_results@))
                    ||| entry.step == ImportFailStep::SeenHistoryConversion
                },
            count_mdp(new_failed@) == count_commit_errors(commit_results@.take(k as int)),
            reviews_to_post@.len() == posted_review_count(orig_media, commit_results@, k as int),
            forall|j: int|
                0 <= j < reviews_to_post@.len() ==> {
                    let p = #[trigger] reviews_to_post@[j];
                    p.entity_lot == EntityLot::Metadata && exists|ki: int|
                        0 <= ki < commit_results@.len() && #[trigger] commit_results@[ki] is Ok
                            && p.entity_id == commit_results@[ki]->Ok_0
                },
        decreases commit_results@.len() - k,
    {
        proof {
            assert(commit_results@.take(k + 1).drop_last() =~= commit_results@.take(k as int));
            assert(commit_results@.take(k + 1).last() == commit_results@[k as int]);
            assert(orig_media.skip(k as int)[0] == orig_media[k as int]);
        }
        let mut h = histories_in.remove(0);
        let item = media_rest.remove(0);
        proof {
            assert(media_rest@ =~= orig_media.skip(k + 1));
            assert(item == orig_media[k as int]);
        }
        match &commit_results[k] {
            Err(msg) => {
                let ghost failed_before = new_failed@;
                let entry = ImportFailedItem {
                    lot: Some(item.lot),
                    step: ImportFailStep::MediaDetailsFromProvider,
                    identifier: item.source_id,
                    error: Some(msg.clone()),
                };
                proof {
                    assert(commit_failure_entry_ok(entry, orig_media, commit_results@)) by {
                        assert(commit_results@[k as int] is Err && entry.identifier@
                            == orig_media[k as int].source_id@);
                    }
                }
                new_failed.push(entry);
                proof {
                    assert(new_failed@.drop_last() =~= failed_before);
                    assert(completed@ =~= collections_completed(collections@) + media_completed(
                        commit_results@.take(k + 1),
                    ));
                }
            },
            Ok(id) => {
                completed.push(ImportCompletedItem::Metadata(*id));
                proof {
                    assert(completed@ =~= collections_completed(collections@) + media_completed(
                        commit_results@.take(k + 1),
                    ));
                }
                let mut sorted = sort_seen_history(item.seen_history);
                let mut s: usize = 0;
                while s < sorted.len()
                    invariant
                        0 <= s <= sorted@.len(),
                        forall|j: int|
                            0 <= j < new_failed@.len() ==> {
                                let entry = #[trigger] new_failed@[j];
                                ||| (entry.step == ImportFailStep::MediaDetailsFromProvider
                                    && commit_failure_entry_ok(
                                    entry,
                                    orig_media,
                                    commit_results@,
                                ))
                                ||| entry.step == ImportFailStep::SeenHistoryConversion
                            },
                        count_mdp(new_failed@) == count_commit_errors(
                            commit_results@.take(k + 1),
                        ),
                    decreases sorted@.len() - s,
                {
                    let entry = &sorted[s];
                    let progress = match &entry.progress {
                        Some(p) => Some(*p),
                        None => Some(FixedValue { hundredths: PROGRESS_FULL }),
                    };
                    let input = ProgressUpdateInput {
                        progress,
                        change_state: None,
                        date: entry.ended_on,
                        show_season_number: entry.show_season_number,
                        show_episode_number: entry.show_episode_number,
                        podcast_episode_number: entry.podcast_episode_number,
                        anime_episode_number: entry.anime_episode_number,
                        manga_chapter_number: entry.manga_chapter_number,
                        manga_volume_number: entry.manga_volume_number,
                        provider_watched_on: clone_opt_str(&entry.provider_watched_on),
                    };
                    let outcome = update_progress(
                        &mut h,
                        item.lot,
                        &input,
                        today,
                        now,
                        now_day,
                        false,
                        false,
                    );
                    match outcome {
                        Ok(_) => {},
                        Err(e) => {
                            let ghost failed_before = new_failed@;
                            let needs_report = matches!(
                                e,
                                ProgressUpdateErrorVariant::MissingSeasonNumber
                                    | ProgressUpdateErrorVariant::MissingEpisodeNumber,
                            );
                            if needs_report {
                                let message: &str = match e {
                                    ProgressUpdateErrorVariant::MissingSeasonNumber => "season number is required for this media kind",
                                    _ => "episode number is required for this media kind",
                                };
                                new_failed.push(
                                    ImportFailedItem {
                                        lot: Some(item.lot),
                                        step: ImportFailStep::SeenHistoryConversion,
                                        identifier: item.source_id.clone(),
                                        error: Some(message.to_owned()),
                                    },
                                );
                                proof {
                                    assert(new_failed@.drop_last() =~= failed_before);
                                }
                            }
                        },
                    }
                    s += 1;
                }
                let ghost posted_before = reviews_to_post@.len() as int;
                let mut rv: usize = 0;
                proof {
                    assert(count_content_reviews(item.reviews@.take(0)) == 0);
                }
                while rv < item.reviews.len()
                    invariant
                        0 <= rv <= item.reviews@.len(),
                        0 <= k < commit_results@.len(),
                        commit_results@[k as int] is Ok,
                        *id == commit_results@[k as int]->Ok_0,
                        reviews_to_post@.len() == posted_before + count_content_reviews(
                            item.reviews@.take(rv as int),
                        ),
                        forall|j: int|
                            0 <= j < reviews_to_post@.len() ==> {
                                let p = #[trigger] reviews_to_post@[j];
                                p.entity_lot == EntityLot::Metadata && exists|ki: int|
                                    0 <= ki < commit_results@.len()
                                        && #[trigger] commit_results@[ki] is Ok && p.entity_id
                                        == commit_results@[ki]->Ok_0
                            },
                    decreases item.reviews@.len() - rv,
                {
                    proof {
                        assert(item.reviews@.take(rv + 1).drop_last() =~= item.reviews@.take(
                            rv as int,
                        ));
                        assert(item.reviews@.take(rv + 1).last() == item.reviews@[rv as int]);
                    }
                    if let Some(post) = convert_review_into_input(
                        &item.reviews[rv],
                        scale,
                        *id,
                        EntityLot::Metadata,
                    ) {
                        reviews_to_post.push(post);
                    }
                    rv += 1;
                }
                proof {
                    assert(item.reviews@.take(item.reviews@.len() as int) =~= item.reviews@);
                }
            },
        }
        histories_out.push(h);
        k += 1;
    }
    proof {
        assert(commit_results@.take(commit_results@.len() as int) =~= commit_results@);
    }

    let mut w: usize = 0;
    let ghost after_media = completed@;
    while w < workouts.len()
        invariant
            0 <= w <= workouts@.len(),
            completed@ == after_media + Seq::new(w as nat, |i: int| ImportCompletedItem::Workout),
        decreases workouts@.len() - w,
    {
        completed.push(ImportCompletedItem::Workout);
        proof {
            assert(completed@ =~= after_media + Seq::new(
                (w + 1) as nat,
                |i: int| ImportCompletedItem::Workout,
            ));
        }
        w += 1;
    }
    let mut m: usize = 0;
    let ghost after_workouts = completed@;
    while m < measurements.len()
        invariant
            0 <= m <= measurements@.len(),
            completed@ == after_workouts + Seq::new(
                m as nat,
                |i: int| ImportCompletedItem::Measurement,
            ),
        decreases measurements@.len() - m,
    {
        completed.push(ImportCompletedItem::Measurement);
        proof {
            assert(completed@ =~= after_workouts + Seq::new(
                (m + 1) as nat,
                |i: int| ImportCompletedItem::Measurement,
            ));
        }
        m += 1;
    }

    let mut failed = failed_items;
    let ghost new_failed_full = new_failed@;
    let nf_len = new_failed.len();
    proof {
        assert(new_failed_full.len() == nf_len as int);
    }
    let mut f: usize = 0;
    proof {
        assert(failed@ =~= init_failed + new_failed_full.take(0));
    }
    while new_failed.len() > 0
        invariant
            0 <= f <= new_failed_full.len(),
            f + new_failed@.len() == new_failed_full.len(),
            new_failed_full.len() <= usize::MAX,
            new_failed@ == new_failed_full.skip(f as int),
            failed@ == init_failed + new_failed_full.take(f as int),
        decreases new_failed@.len(),
    {
        let entry = new_failed.remove(0);
        proof {
            assert(entry == new_failed_full[f as int]);
            assert(new_failed@ =~= new_failed_full.skip(f + 1));
        }
        failed.push(entry);
        proof {
            assert(failed@ =~= init_failed + new_failed_full.take(f + 1));
        }
        f += 1;
    }
    proof {
        assert(new_failed_full.take(new_failed_full.len() as int) =~= new_failed_full);
        assert(failed@ == init_failed + new_failed_full);
        lemma_count_mdp_add(init_failed, new_failed_full);
        assert(failed@.subrange(0, init_failed.len() as int) =~= init_failed);
        assert(completed@ =~= spec_completed(import0, commit_results@));
    }

    ImportProcessOutcome {
        response: ImportResultResponse {
            import: ImportDetails { total },
            completed,
            failed_items: failed,
        },
        histories: histories_out,
        reviews_to_post,
    }
}

} // verus!
