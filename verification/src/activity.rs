//! Daily activity fold: buckets every scanned event by its calendar date,
//! counts it by kind, sums derivable durations, and derives each day's most
//! and least active hour from an hour-of-day histogram. Rows are only ever
//! produced for dates after the resume checkpoint, so each run inserts
//! fresh rows and never merges.

use vstd::prelude::*;
use vstd::multiset::Multiset;
use vstd::assert_multisets_equal;
use crate::{sat_add_i64, spec_sat_add_i64};
use crate::hourbag::{hour_bag_insert, hour_bag_new, hour_bag_pairs, hour_counts};
use crate::stats::{MeasurementEvent, ReviewEvent, SeenEvent, WorkoutEvent};
use crate::types::{MediaLot, spec_episode_by_number, spec_get_episode};

verus! {

/// One per-user, per-date activity row.
#[derive(Clone, Copy, Debug, PartialEq, Eq, Structural)]
pub struct DailyUserActivity {
    pub date: i64,
    pub book_count: u64,
    pub movie_count: u64,
    pub show_count: u64,
    pub podcast_count: u64,
    pub anime_count: u64,
    pub manga_count: u64,
    pub audio_book_count: u64,
    pub video_game_count: u64,
    pub visual_novel_count: u64,
    pub workout_count: u64,
    pub workout_duration: i64,
    pub measurement_count: u64,
    pub review_count: u64,
    pub show_duration: i64,
    pub podcast_duration: i64,
    pub audio_book_duration: i64,
    pub movie_duration: i64,
    pub most_active_hour: Option<u32>,
    pub least_active_hour: Option<u32>,
}

/// Everything one activity run scans.
#[derive(Clone, Debug)]
pub struct ActivityEvents {
    pub seen: Vec<SeenEvent>,
    pub workouts: Vec<WorkoutEvent>,
    pub measurements: Vec<MeasurementEvent>,
    pub reviews: Vec<ReviewEvent>,
}

/// The calendar date of a timestamp, as an epoch day; timestamps before
/// the epoch bucket at day zero.
pub open spec fn spec_day_of(t: i64) -> i64 {
    if t >= 0 {
        (t / 86400) as i64
    } else {
        0
    }
}

/// Executable twin of [`spec_day_of`].
pub fn day_of(t: i64) -> (r: i64)
    ensures
        r == spec_day_of(t),
{
    if t >= 0 {
        t / 86400
    } else {
        0
    }
}

/// The hour of day of a timestamp; timestamps before the epoch count as
/// hour zero.
pub open spec fn spec_hour_of(t: i64) -> u32 {
    if t >= 0 {
        ((t % 86400) / 3600) as u32
    } else {
        0
    }
}

/// Executable twin of [`spec_hour_of`].
pub fn hour_of(t: i64) -> (r: u32)
    ensures
        r == spec_hour_of(t),
{
    if t >= 0 {
        ((t % 86400) / 3600) as u32
    } else {
        0
    }
}

/// A completed seen event enters the activity fold when it carries a finish
/// date and was touched strictly after the checkpoint.
pub open spec fn passes_seen(e: SeenEvent, cp: i64) -> bool {
    e.finished_on is Some && e.last_updated_on > cp
}

/// Whether an event pairs show specifics with a show coordinate.
pub open spec fn show_pair(e: SeenEvent) -> bool {
    e.show_specifics is Some && e.show_extra_information is Some
}

/// Whether an event pairs podcast specifics with a podcast coordinate,
/// and is not already a show pair.
pub open spec fn podcast_pair(e: SeenEvent) -> bool {
    !show_pair(e) && e.podcast_specifics is Some && e.podcast_extra_information is Some
}

/// The show runtime one event contributes.
pub open spec fn spec_show_dur(e: SeenEvent) -> int {
    if show_pair(e) {
        let s = e.show_extra_information.unwrap();
        match spec_get_episode(e.show_specifics.unwrap().seasons@, s.season, s.episode) {
            Option::Some((_se, ep)) => match ep.runtime {
                Option::Some(r) => r as int,
                Option::None => 0,
            },
            Option::None => 0,
        }
    } else {
        0
    }
}

/// The podcast runtime one event contributes.
pub open spec fn spec_podcast_dur(e: SeenEvent) -> int {
    if podcast_pair(e) {
        let s = e.podcast_extra_information.unwrap();
        match spec_episode_by_number(e.podcast_specifics.unwrap().episodes@, s.episode) {
            Option::Some(ep) => match ep.runtime {
                Option::Some(r) => r as int,
                Option::None => 0,
            },
            Option::None => 0,
        }
    } else {
        0
    }
}

/// The audio book runtime one event contributes.
pub open spec fn spec_audio_dur(e: SeenEvent) -> int {
    if !show_pair(e) && !podcast_pair(e) && e.audio_book_specifics is Some {
        match e.audio_book_specifics.unwrap().runtime {
            Option::Some(r) => r as int,
            Option::None => 0,
        }
    } else {
        0
    }
}

/// The movie runtime one event contributes.
pub open spec fn spec_movie_dur(e: SeenEvent) -> int {
    if !show_pair(e) && !podcast_pair(e) && e.audio_book_specifics is None && e.movie_specifics
        is Some {
        match e.movie_specifics.unwrap().runtime {
            Option::Some(r) => r as int,
            Option::None => 0,
        }
    } else {
        0
    }
}

/// What the seen events of one date contribute to its row.
pub struct SeenDayTotals {
    pub book: int,
    pub movie: int,
    pub show: int,
    pub podcast: int,
    pub anime: int,
    pub manga: int,
    pub audio_book: int,
    pub video_game: int,
    pub visual_novel: int,
    pub show_dur: i64,
    pub podcast_dur: i64,
    pub audio_dur: i64,
    pub movie_dur: i64,
    pub hours: Multiset<u32>,
}

/// No seen contribution yet.
pub open spec fn seen_day_zero() -> SeenDayTotals {
    SeenDayTotals {
        book: 0,
        movie: 0,
        show: 0,
        podcast: 0,
        anime: 0,
        manga: 0,
        audio_book: 0,
        video_game: 0,
        visual_novel: 0,
        show_dur: 0,
        podcast_dur: 0,
        audio_dur: 0,
        movie_dur: 0,
        hours: Multiset::empty(),
    }
}

/// One seen event absorbed into a date's totals.
pub open spec fn seen_day_step(t: SeenDayTotals, e: SeenEvent) -> SeenDayTotals {
    SeenDayTotals {
        book: t.book + (if e.metadata_lot == MediaLot::Book {
            1int
        } else {
            0int
        }),
        movie: t.movie + (if e.metadata_lot == MediaLot::Movie {
            1int
        } else {
            0int
        }),
        show: t.show + (if e.metadata_lot == MediaLot::Show {
            1int
        } else {
            0int
        }),
        podcast: t.podcast + (if e.metadata_lot == MediaLot::Podcast {
            1int
        } else {
            0int
        }),
        anime: t.anime + (if e.metadata_lot == MediaLot::Anime {
            1int
        } else {
            0int
        }),
        manga: t.manga + (if e.metadata_lot == MediaLot::Manga {
            1int
        } else {
            0int
        }),
        audio_book: t.audio_book + (if e.metadata_lot == MediaLot::AudioBook {
            1int
        } else {
            0int
        }),
        video_game: t.video_game + (if e.metadata_lot == MediaLot::VideoGame {
            1int
        } else {
            0int
        }),
        visual_novel: t.visual_novel + (if e.metadata_lot == MediaLot::VisualNovel {
            1int
        } else {
            0int
        }),
        show_dur: spec_sat_add_i64(t.show_dur, spec_show_dur(e)),
        podcast_dur: spec_sat_add_i64(t.podcast_dur, spec_podcast_dur(e)),
        audio_dur: spec_sat_add_i64(t.audio_dur, spec_audio_dur(e)),
        movie_dur: spec_sat_add_i64(t.movie_dur, spec_movie_dur(e)),
        hours: t.hours.insert(spec_hour_of(e.last_updated_on)),
    }
}

/// The totals of every passing seen event of one date.
pub open spec fn seen_day_totals(es: Seq<SeenEvent>, cp: i64, d: i64) -> SeenDayTotals
    decreases es.len(),
{
    if es.len() == 0 {
        seen_day_zero()
    } else {
        let t = seen_day_totals(es.drop_last(), cp, d);
        if passes_seen(es.last(), cp) && es.last().finished_on.unwrap() == d {
            seen_day_step(t, es.last())
        } else {
            t
        }
    }
}

/// What the workouts of one date contribute: a count, truncated minutes,
/// and histogram hours. Workouts at or after the checkpoint enter the fold.
pub struct WorkoutDayTotals {
    pub count: int,
    pub minutes: i64,
    pub hours: Multiset<u32>,
}

/// The minutes one workout contributes; a negative duration counts as zero.
pub open spec fn spec_workout_minutes(duration: i32) -> int {
    if duration >= 0 {
        duration as int / 60
    } else {
        0
    }
}

/// The totals of every passing workout of one date.
pub open spec fn workout_day_totals(ws: Seq<WorkoutEvent>, cp: i64, d: i64) -> WorkoutDayTotals
    decreases ws.len(),
{
    if ws.len() == 0 {
        WorkoutDayTotals { count: 0, minutes: 0, hours: Multiset::empty() }
    } else {
        let t = workout_day_totals(ws.drop_last(), cp, d);
        let e = ws.last();
        if e.end_time >= cp && spec_day_of(e.end_time) == d {
            WorkoutDayTotals {
                count: t.count + 1,
                minutes: spec_sat_add_i64(t.minutes, spec_workout_minutes(e.duration)),
                hours: t.hours.insert(spec_hour_of(e.end_time)),
            }
        } else {
            t
        }
    }
}

/// A count of timestamped events of one date, with their histogram hours.
pub struct SimpleDayTotals {
    pub count: int,
    pub hours: Multiset<u32>,
}

/// The totals of every passing measurement of one date.
pub open spec fn measurement_day_totals(
    ms: Seq<MeasurementEvent>,
    cp: i64,
    d: i64,
) -> SimpleDayTotals
    decreases ms.len(),
{
    if ms.len() == 0 {
        SimpleDayTotals { count: 0, hours: Multiset::empty() }
    } else {
        let t = measurement_day_totals(ms.drop_last(), cp, d);
        let e = ms.last();
        if e.timestamp >= cp && spec_day_of(e.timestamp) == d {
            SimpleDayTotals {
                count: t.count + 1,
                hours: t.hours.insert(spec_hour_of(e.timestamp)),
            }
        } else {
            t
        }
    }
}

/// The totals of every passing review of one date.
pub open spec fn review_day_totals(rs: Seq<ReviewEvent>, cp: i64, d: i64) -> SimpleDayTotals
    decreases rs.len(),
{
    if rs.len() == 0 {
        SimpleDayTotals { count: 0, hours: Multiset::empty() }
    } else {
        let t = review_day_totals(rs.drop_last(), cp, d);
        let e = rs.last();
        if e.posted_on >= cp && spec_day_of(e.posted_on) == d {
            SimpleDayTotals {
                count: t.count + 1,
                hours: t.hours.insert(spec_hour_of(e.posted_on)),
            }
        } else {
            t
        }
    }
}

/// The hour with the most occurrences, smallest hour first on a tie.
pub open spec fn is_top_hour(m: Multiset<u32>, h: u32) -> bool {
    &&& m.count(h) > 0
    &&& forall|h2: u32| m.count(h2) <= m.count(h)
    &&& forall|h2: u32| m.count(h2) == m.count(h) ==> h <= h2
}

/// The hour with the fewest occurrences among those present, smallest hour
/// first on a tie.
pub open spec fn is_bottom_hour(m: Multiset<u32>, h: u32) -> bool {
    &&& m.count(h) > 0
    &&& forall|h2: u32| m.count(h2) > 0 ==> m.count(h2) >= m.count(h)
    &&& forall|h2: u32| m.count(h2) == m.count(h) ==> h <= h2
}

/// The mode hour of a histogram, when it has one.
pub open spec fn mode_of(m: Multiset<u32>) -> Option<u32> {
    if exists|h: u32| is_top_hour(m, h) {
        Option::Some(choose|h: u32| is_top_hour(m, h))
    } else {
        Option::None
    }
}

/// The antimode hour of a histogram, when it has one.
pub open spec fn antimode_of(m: Multiset<u32>) -> Option<u32> {
    if exists|h: u32| is_bottom_hour(m, h) {
        Option::Some(choose|h: u32| is_bottom_hour(m, h))
    } else {
        Option::None
    }
}

/// The full histogram of one date, over all four event kinds.
pub open spec fn day_hours(ev: ActivityEvents, cp: i64, d: i64) -> Multiset<u32> {
    seen_day_totals(ev.seen@, cp, d).hours.add(workout_day_totals(ev.workouts@, cp, d).hours).add(
        measurement_day_totals(ev.measurements@, cp, d).hours,
    ).add(review_day_totals(ev.reviews@, cp, d).hours)
}

/// The complete activity row of one date. A flat histogram (mode and
/// antimode coincide) records both hours as unset.
pub open spec fn spec_day_row(ev: ActivityEvents, cp: i64, d: i64) -> DailyUserActivity {
    let s = seen_day_totals(ev.seen@, cp, d);
    let w = workout_day_totals(ev.workouts@, cp, d);
    let m = measurement_day_totals(ev.measurements@, cp, d);
    let r = review_day_totals(ev.reviews@, cp, d);
    let hist = day_hours(ev, cp, d);
    let top = mode_of(hist);
    let bottom = antimode_of(hist);
    DailyUserActivity {
        date: d,
        book_count: s.book as u64,
        movie_count: s.movie as u64,
        show_count: s.show as u64,
        podcast_count: s.podcast as u64,
        anime_count: s.anime as u64,
        manga_count: s.manga as u64,
        audio_book_count: s.audio_book as u64,
        video_game_count: s.video_game as u64,
        visual_novel_count: s.visual_novel as u64,
        workout_count: w.count as u64,
        workout_duration: w.minutes,
        measurement_count: m.count as u64,
        review_count: r.count as u64,
        show_duration: s.show_dur,
        podcast_duration: s.podcast_dur,
        audio_book_duration: s.audio_dur,
        movie_duration: s.movie_dur,
        most_active_hour: if top == bottom {
            Option::None
        } else {
            top
        },
        least_active_hour: if top == bottom {
            Option::None
        } else {
            bottom
        },
    }
}

/// Whether some passing event falls on a date.
pub open spec fn date_occurs(ev: ActivityEvents, cp: i64, d: i64) -> bool {
    ||| exists|i: int|
        0 <= i < ev.seen@.len() && passes_seen(#[trigger] ev.seen@[i], cp)
            && ev.seen@[i].finished_on.unwrap() == d
    ||| exists|i: int|
        0 <= i < ev.workouts@.len() && (#[trigger] ev.workouts@[i]).end_time >= cp && spec_day_of(
            ev.workouts@[i].end_time,
        ) == d
    ||| exists|i: int|
        0 <= i < ev.measurements@.len() && (#[trigger] ev.measurements@[i]).timestamp >= cp
            && spec_day_of(ev.measurements@[i].timestamp) == d
    ||| exists|i: int|
        0 <= i < ev.reviews@.len() && (#[trigger] ev.reviews@[i]).posted_on >= cp && spec_day_of(
            ev.reviews@[i].posted_on,
        ) == d
}

/// What the seen scan of one date reports.
#[derive(Clone, Copy, Debug, PartialEq, Eq, Structural)]
pub struct SeenScan {
    pub book: u64,
    pub movie: u64,
    pub show: u64,
    pub podcast: u64,
    pub anime: u64,
    pub manga: u64,
    pub audio_book: u64,
    pub video_game: u64,
    pub visual_novel: u64,
    pub show_dur: i64,
    pub podcast_dur: i64,
    pub audio_dur: i64,
    pub movie_dur: i64,
}

fn show_dur_of(e: &SeenEvent) -> (r: i32)
    ensures
        r as int == spec_show_dur(*e),
{
    if let (Some(spec), Some(extra)) = (&e.show_specifics, &e.show_extra_information) {
        match spec.get_episode(extra.season, extra.episode) {
            Some((_se, ep)) => match ep.runtime {
                Some(r) => r,
                None => 0,
            },
            None => 0,
        }
    } else {
        0
    }
}

fn podcast_dur_of(e: &SeenEvent) -> (r: i32)
    ensures
        r as int == spec_podcast_dur(*e),
{
    if e.show_specifics.is_some() && e.show_extra_information.is_some() {
        return 0;
    }
    if let (Some(spec), Some(extra)) = (&e.podcast_specifics, &e.podcast_extra_information) {
        match spec.episode_by_number(extra.episode) {
            Some(ep) => match ep.runtime {
                Some(r) => r,
                None => 0,
            },
            None => 0,
        }
    } else {
        0
    }
}

fn audio_dur_of(e: &SeenEvent) -> (r: i32)
    ensures
        r as int == spec_audio_dur(*e),
{
    if e.show_specifics.is_some() && e.show_extra_information.is_some() {
        return 0;
    }
    if e.podcast_specifics.is_some() && e.podcast_extra_information.is_some() {
        return 0;
    }
    match &e.audio_book_specifics {
        Some(a) => match a.runtime {
            Some(r) => r,
            None => 0,
        },
        None => 0,
    }
}

fn movie_dur_of(e: &SeenEvent) -> (r: i32)
    ensures
        r as int == spec_movie_dur(*e),
{
    if e.show_specifics.is_some() && e.show_extra_information.is_some() {
        return 0;
    }
    if e.podcast_specifics.is_some() && e.podcast_extra_information.is_some() {
        return 0;
    }
    if e.audio_book_specifics.is_some() {
        return 0;
    }
    match &e.movie_specifics {
        Some(m) => match m.runtime {
            Some(r) => r,
            None => 0,
        },
        None => 0,
    }
}

fn scan_seen_day(
    es: &Vec<SeenEvent>,
    cp: i64,
    d: i64,
    bag: &mut hashbag::HashBag<u32, std::collections::hash_map::RandomState>,
) -> (t: SeenScan)
    ensures
        ({
            let s = seen_day_totals(es@, cp, d);
            &&& t.book == s.book
            &&& t.movie == s.movie
            &&& t.show == s.show
            &&& t.podcast == s.podcast
            &&& t.anime == s.anime
            &&& t.manga == s.manga
            &&& t.audio_book == s.audio_book
            &&& t.video_game == s.video_game
            &&& t.visual_novel == s.visual_novel
            &&& t.show_dur == s.show_dur
            &&& t.podcast_dur == s.podcast_dur
            &&& t.audio_dur == s.audio_dur
            &&& t.movie_dur == s.movie_dur
            &&& hour_counts(*final(bag)) == hour_counts(*old(bag)).add(s.hours)
        }),
{
    let mut t = SeenScan {
        book: 0,
        movie: 0,
        show: 0,
        podcast: 0,
        anime: 0,
        manga: 0,
        audio_book: 0,
        video_game: 0,
        visual_novel: 0,
        show_dur: 0,
        podcast_dur: 0,
        audio_dur: 0,
        movie_dur: 0,
    };
    let mut i: usize = 0;
    proof {
        assert(es@.take(0) =~= Seq::<SeenEvent>::empty());
        assert_multisets_equal!(
            hour_counts(*bag).add(seen_day_totals(es@.take(0), cp, d).hours),
            hour_counts(*bag));
    }
    while i < es.len()
        invariant
            0 <= i <= es@.len(),
            t.book <= i && t.movie <= i && t.show <= i && t.podcast <= i && t.anime <= i
                && t.manga <= i && t.audio_book <= i && t.video_game <= i && t.visual_novel
                <= i,
            ({
                let s = seen_day_totals(es@.take(i as int), cp, d);
                &&& t.book == s.book
                &&& t.movie == s.movie
                &&& t.show == s.show
                &&& t.podcast == s.podcast
                &&& t.anime == s.anime
                &&& t.manga == s.manga
                &&& t.audio_book == s.audio_book
                &&& t.video_game == s.video_game
                &&& t.visual_novel == s.visual_novel
                &&& t.show_dur == s.show_dur
                &&& t.podcast_dur == s.podcast_dur
                &&& t.audio_dur == s.audio_dur
                &&& t.movie_dur == s.movie_dur
                &&& hour_counts(*bag) == hour_counts(*old(bag)).add(s.hours)
            }),
        decreases es@.len() - i,
    {
        proof {
            assert(es@.take(i + 1).drop_last() =~= es@.take(i as int));
            assert(es@.take(i + 1).last() == es@[i as int]);
        }
        let ghost s_before = seen_day_totals(es@.take(i as int), cp, d);
        let e = &es[i];
        let passes = e.finished_on.is_some() && e.last_updated_on > cp;
        if passes && e.finished_on.unwrap() == d {
            match e.metadata_lot {
                MediaLot::Book => t.book = t.book + 1,
                MediaLot::Movie => t.movie = t.movie + 1,
                MediaLot::Show => t.show = t.show + 1,
                MediaLot::Podcast => t.podcast = t.podcast + 1,
                MediaLot::Anime => t.anime = t.anime + 1,
                MediaLot::Manga => t.manga = t.manga + 1,
                MediaLot::AudioBook => t.audio_book = t.audio_book + 1,
                MediaLot::VideoGame => t.video_game = t.video_game + 1,
                MediaLot::VisualNovel => t.visual_novel = t.visual_novel + 1,
            }
            t.show_dur = sat_add_i64(t.show_dur, show_dur_of(e) as i64);
            t.podcast_dur = sat_add_i64(t.podcast_dur, podcast_dur_of(e) as i64);
            t.audio_dur = sat_add_i64(t.audio_dur, audio_dur_of(e) as i64);
            t.movie_dur = sat_add_i64(t.movie_dur, movie_dur_of(e) as i64);
            let hour = hour_of(e.last_updated_on);
            let _prev = hour_bag_insert(bag, hour);
            proof {
                assert_multisets_equal!(
                    hour_counts(*old(bag)).add(s_before.hours).insert(spec_hour_of(es@[i as int].last_updated_on)),
                    hour_counts(*old(bag)).add(s_before.hours.insert(spec_hour_of(es@[i as int].last_updated_on))));
            }
        }
        i += 1;
    }
    proof {
        assert(es@.take(es@.len() as int) =~= es@);
    }
    t
}

fn scan_workout_day(
    ws: &Vec<WorkoutEvent>,
    cp: i64,
    d: i64,
    bag: &mut hashbag::HashBag<u32, std::collections::hash_map::RandomState>,
) -> (t: (u64, i64))
    ensures
        ({
            let s = workout_day_totals(ws@, cp, d);
            &&& t.0 == s.count
            &&& t.1 == s.minutes
            &&& hour_counts(*final(bag)) == hour_counts(*old(bag)).add(s.hours)
        }),
{
    let mut count: u64 = 0;
    let mut minutes: i64 = 0;
    let mut i: usize = 0;
    proof {
        assert(ws@.take(0) =~= Seq::<WorkoutEvent>::empty());
        assert_multisets_equal!(
            hour_counts(*bag).add(workout_day_totals(ws@.take(0), cp, d).hours),
            hour_counts(*bag));
    }
    while i < ws.len()
        invariant
            0 <= i <= ws@.len(),
            count <= i,
            ({
                let s = workout_day_totals(ws@.take(i as int), cp, d);
                &&& count == s.count
                &&& minutes == s.minutes
                &&& hour_counts(*bag) == hour_counts(*old(bag)).add(s.hours)
            }),
        decreases ws@.len() - i,
    {
        proof {
            assert(ws@.take(i + 1).drop_last() =~= ws@.take(i as int));
            assert(ws@.take(i + 1).last() == ws@[i as int]);
        }
        let ghost s_before = workout_day_totals(ws@.take(i as int), cp, d);
        let e = &ws[i];
        if e.end_time >= cp && day_of(e.end_time) == d {
            count = count + 1;
            let mins: i32 = if e.duration >= 0 {
                e.duration / 60
            } else {
                0
            };
            minutes = sat_add_i64(minutes, mins as i64);
            let hour = hour_of(e.end_time);
            let _prev = hour_bag_insert(bag, hour);
            proof {
                assert_multisets_equal!(
                    hour_counts(*old(bag)).add(s_before.hours).insert(spec_hour_of(ws@[i as int].end_time)),
                    hour_counts(*old(bag)).add(s_before.hours.insert(spec_hour_of(ws@[i as int].end_time))));
            }
        }
        i += 1;
    }
    proof {
        assert(ws@.take(ws@.len() as int) =~= ws@);
    }
    (count, minutes)
}

fn scan_measurement_day(
    ms: &Vec<MeasurementEvent>,
    cp: i64,
    d: i64,
    bag: &mut hashbag::HashBag<u32, std::collections::hash_map::RandomState>,
) -> (t: u64)
    ensures
        ({
            let s = measurement_day_totals(ms@, cp, d);
            &&& t == s.count
            &&& hour_counts(*final(bag)) == hour_counts(*old(bag)).add(s.hours)
        }),
{
    let mut count: u64 = 0;
    let mut i: usize = 0;
    proof {
        assert(ms@.take(0) =~= Seq::<MeasurementEvent>::empty());
        assert_multisets_equal!(
            hour_counts(*bag).add(measurement_day_totals(ms@.take(0), cp, d).hours),
            hour_counts(*bag));
    }
    while i < ms.len()
        invariant
            0 <= i <= ms@.len(),
            count <= i,
            ({
                let s = measurement_day_totals(ms@.take(i as int), cp, d);
                &&& count == s.count
                &&& hour_counts(*bag) == hour_counts(*old(bag)).add(s.hours)
            }),
        decreases ms@.len() - i,
    {
        proof {
            assert(ms@.take(i + 1).drop_last() =~= ms@.take(i as int));
            assert(ms@.take(i + 1).last() == ms@[i as int]);
        }
        let ghost s_before = measurement_day_totals(ms@.take(i as int), cp, d);
        let e = &ms[i];
        if e.timestamp >= cp && day_of(e.timestamp) == d {
            count = count + 1;
            let hour = hour_of(e.timestamp);
            let _prev = hour_bag_insert(bag, hour);
            proof {
                assert_multisets_equal!(
                    hour_counts(*old(bag)).add(s_before.hours).insert(spec_hour_of(ms@[i as int].timestamp)),
                    hour_counts(*old(bag)).add(s_before.hours.insert(spec_hour_of(ms@[i as int].timestamp))));
            }
        }
        i += 1;
    }
    proof {
        assert(ms@.take(ms@.len() as int) =~= ms@);
    }
    count
}

fn scan_review_day(
    rs: &Vec<ReviewEvent>,
    cp: i64,
    d: i64,
    bag: &mut hashbag::HashBag<u32, std::collections::hash_map::RandomState>,
) -> (t: u64)
    ensures
        ({
            let s = review_day_totals(rs@, cp, d);
            &&& t == s.count
            &&& hour_counts(*final(bag)) == hour_counts(*old(bag)).add(s.hours)
        }),
{
    let mut count: u64 = 0;
    let mut i: usize = 0;
    proof {
        assert(rs@.take(0) =~= Seq::<ReviewEvent>::empty());
        assert_multisets_equal!(
            hour_counts(*bag).add(review_day_totals(rs@.take(0), cp, d).hours),
            hour_counts(*bag));
    }
    while i < rs.len()
        invariant
            0 <= i <= rs@.len(),
            count <= i,
            ({
                let s = review_day_totals(rs@.take(i as int), cp, d);
                &&& count == s.count
                &&& hour_counts(*bag) == hour_counts(*old(bag)).add(s.hours)
            }),
        decreases rs@.len() - i,
    {
        proof {
            assert(rs@.take(i + 1).drop_last() =~= rs@.take(i as int));
            assert(rs@.take(i + 1).last() == rs@[i as int]);
        }
        let ghost s_before = review_day_totals(rs@.take(i as int), cp, d);
        let e = &rs[i];
        if e.posted_on >= cp && day_of(e.posted_on) == d {
            count = count + 1;
            let hour = hour_of(e.posted_on);
            let _prev = hour_bag_insert(bag, hour);
            proof {
                assert_multisets_equal!(
                    hour_counts(*old(bag)).add(s_before.hours).insert(spec_hour_of(rs@[i as int].posted_on)),
                    hour_counts(*old(bag)).add(s_before.hours.insert(spec_hour_of(rs@[i as int].posted_on))));
            }
        }
        i += 1;
    }
    proof {
        assert(rs@.take(rs@.len() as int) =~= rs@);
    }
    count
}

/// Derive a histogram's mode and antimode hours.
fn histogram_hours(
    bag: &hashbag::HashBag<u32, std::collections::hash_map::RandomState>,
) -> (r: (Option<u32>, Option<u32>))
    ensures
        r.0 == mode_of(hour_counts(*bag)),
        r.1 == antimode_of(hour_counts(*bag)),
{
    let ghost m = hour_counts(*bag);
    let pairs = hour_bag_pairs(bag);
    if pairs.len() == 0 {
        proof {
            assert forall|h: u32| !is_top_hour(m, h) by {
                if m.count(h) > 0 {
                    assert(exists|i: int| 0 <= i < pairs@.len() && (#[trigger] pairs@[i]).0 == h);
                }
            }
            assert forall|h: u32| !is_bottom_hour(m, h) by {
                if m.count(h) > 0 {
                    assert(exists|i: int| 0 <= i < pairs@.len() && (#[trigger] pairs@[i]).0 == h);
                }
            }
        }
        return (None, None);
    }
    let mut bh: u32 = pairs[0].0;
    let mut bc: usize = pairs[0].1;
    let mut lh: u32 = pairs[0].0;
    let mut lc: usize = pairs[0].1;
    let mut i: usize = 1;
    while i < pairs.len()
        invariant
            1 <= i <= pairs@.len(),
            pairs@.len() > 0,
            forall|j: int|
                0 <= j < pairs@.len() ==> (#[trigger] pairs@[j]).1 == m.count(pairs@[j].0)
                    && pairs@[j].1 > 0,
            forall|h: u32|
                m.count(h) > 0 ==> exists|j: int|
                    0 <= j < pairs@.len() && (#[trigger] pairs@[j]).0 == h,
            exists|j: int|
                0 <= j < pairs@.len() && (#[trigger] pairs@[j]).0 == bh && pairs@[j].1 == bc,
            exists|j: int|
                0 <= j < pairs@.len() && (#[trigger] pairs@[j]).0 == lh && pairs@[j].1 == lc,
            forall|j: int|
                0 <= j < i ==> (#[trigger] pairs@[j]).1 < bc || (pairs@[j].1 == bc && pairs@[j].0
                    >= bh),
            forall|j: int|
                0 <= j < i ==> (#[trigger] pairs@[j]).1 > lc || (pairs@[j].1 == lc && pairs@[j].0
                    >= lh),
        decreases pairs@.len() - i,
    {
        let (h, c) = pairs[i];
        if c > bc || (c == bc && h < bh) {
            bh = h;
            bc = c;
        }
        if c < lc || (c == lc && h < lh) {
            lh = h;
            lc = c;
        }
        i += 1;
    }
    proof {
        assert(m.count(bh) == bc && bc > 0);
        assert(m.count(lh) == lc && lc > 0);
        assert forall|h2: u32| m.count(h2) <= m.count(bh) by {
            if m.count(h2) > 0 {
                let j = choose|j: int|
                    0 <= j < pairs@.len() && (#[trigger] pairs@[j]).0 == h2;
                assert(pairs@[j].1 <= bc);
            }
        }
        assert forall|h2: u32| m.count(h2) == m.count(bh) implies bh <= h2 by {
            let j = choose|j: int| 0 <= j < pairs@.len() && (#[trigger] pairs@[j]).0 == h2;
            assert(pairs@[j].1 == bc);
        }
        assert(is_top_hour(m, bh));
        assert forall|h2: u32| m.count(h2) > 0 implies m.count(h2) >= m.count(lh) by {
            let j = choose|j: int| 0 <= j < pairs@.len() && (#[trigger] pairs@[j]).0 == h2;
            assert(pairs@[j].1 >= lc);
        }
        assert forall|h2: u32| m.count(h2) == m.count(lh) implies lh <= h2 by {
            let j = choose|j: int| 0 <= j < pairs@.len() && (#[trigger] pairs@[j]).0 == h2;
            assert(pairs@[j].1 == lc);
        }
        assert(is_bottom_hour(m, lh));
        let c0 = choose|h: u32| is_top_hour(m, h);
        assert(m.count(c0) == m.count(bh));
        assert(c0 == bh);
        let c1 = choose|h: u32| is_bottom_hour(m, h);
        assert(m.count(c1) == m.count(lh));
        assert(c1 == lh);
    }
    (Some(bh), Some(lh))
}

/// Fold every scanned event into one activity row per date. Each returned
/// row carries a distinct date on which some scanned event falls, with its
/// exact per-kind counts, durations and histogram hours; rows come in no
/// promised order. Seen events enter when touched strictly after
/// `start_from`; workouts, measurements and reviews when timestamped at or
/// after it.
pub fn calculate_user_activities(events: &ActivityEvents, start_from: i64) -> (rows: Vec<
    DailyUserActivity,
>)
    ensures
        forall|a: int, b: int|
            0 <= a < b < rows@.len() ==> (#[trigger] rows@[a]).date != (#[trigger] rows@[b]).date,
        forall|k: int|
            0 <= k < rows@.len() ==> (#[trigger] rows@[k]) == spec_day_row(
                *events,
                start_from,
                rows@[k].date,
            ) && date_occurs(*events, start_from, rows@[k].date),
        forall|i: int|
            0 <= i < events.seen@.len() && passes_seen(#[trigger] events.seen@[i], start_from)
                ==> exists|k: int|
                0 <= k < rows@.len() && (#[trigger] rows@[k]).date
                    == events.seen@[i].finished_on.unwrap(),
        forall|i: int|
            0 <= i < events.workouts@.len() && (#[trigger] events.workouts@[i]).end_time
                >= start_from ==> exists|k: int|
                0 <= k < rows@.len() && (#[trigger] rows@[k]).date == spec_day_of(
                    events.workouts@[i].end_time,
                ),
        forall|i: int|
            0 <= i < events.measurements@.len() && (#[trigger] events.measurements@[i]).timestamp
                >= start_from ==> exists|k: int|
                0 <= k < rows@.len() && (#[trigger] rows@[k]).date == spec_day_of(
                    events.measurements@[i].timestamp,
                ),
        forall|i: int|
            0 <= i < events.reviews@.len() && (#[trigger] events.reviews@[i]).posted_on
                >= start_from ==> exists|k: int|
                0 <= k < rows@.len() && (#[trigger] rows@[k]).date == spec_day_of(
                    events.reviews@[i].posted_on,
                ),
{
    let cp = start_from;
    let mut dates: Vec<i64> = Vec::new();
    let mut i: usize = 0;
    while i < events.seen.len()
        invariant
            0 <= i <= events.seen@.len(),
            forall|a: int, b: int| 0 <= a < b < dates@.len() ==> dates@[a] != dates@[b],
            forall|k: int| 0 <= k < dates@.len() ==> date_occurs(*events, cp, #[trigger] dates@[k]),
            forall|j: int|
                0 <= j < i && passes_seen(#[trigger] events.seen@[j], cp) ==> dates@.contains(
                    events.seen@[j].finished_on.unwrap(),
                ),
        decreases events.seen@.len() - i,
    {
        let e = &events.seen[i];
        if e.finished_on.is_some() && e.last_updated_on > cp {
            let d = e.finished_on.unwrap();
            proof {
                assert(passes_seen(events.seen@[i as int], cp) && events.seen@[
                    i as int
                ].finished_on.unwrap() == d);
                assert(date_occurs(*events, cp, d));
            }
            insert_day(&mut dates, d);
        }
        i += 1;
    }
    let mut i: usize = 0;
    while i < events.workouts.len()
        invariant
            0 <= i <= events.workouts@.len(),
            forall|a: int, b: int| 0 <= a < b < dates@.len() ==> dates@[a] != dates@[b],
            forall|k: int| 0 <= k < dates@.len() ==> date_occurs(*events, cp, #[trigger] dates@[k]),
            forall|j: int|
                0 <= j < events.seen@.len() && passes_seen(#[trigger] events.seen@[j], cp)
                    ==> dates@.contains(events.seen@[j].finished_on.unwrap()),
            forall|j: int|
                0 <= j < i && (#[trigger] events.workouts@[j]).end_time >= cp ==> dates@.contains(
                    spec_day_of(events.workouts@[j].end_time),
                ),
        decreases events.workouts@.len() - i,
    {
        let e = &events.workouts[i];
        if e.end_time >= cp {
            let d = day_of(e.end_time);
            proof {
                assert((events.workouts@[i as int]).end_time >= cp && spec_day_of(
                    events.workouts@[i as int].end_time,
                ) == d);
                assert(date_occurs(*events, cp, d));
            }
            insert_day(&mut dates, d);
        }
        i += 1;
    }
    let mut i: usize = 0;
    while i < events.measurements.len()
        invariant
            0 <= i <= events.measurements@.len(),
            forall|a: int, b: int| 0 <= a < b < dates@.len() ==> dates@[a] != dates@[b],
            forall|k: int| 0 <= k < dates@.len() ==> date_occurs(*events, cp, #[trigger] dates@[k]),
            forall|j: int|
                0 <= j < events.seen@.len() && passes_seen(#[trigger] events.seen@[j], cp)
                    ==> dates@.contains(events.seen@[j].finished_on.unwrap()),
            forall|j: int|
                0 <= j < events.workouts@.len() && (#[trigger] events.workouts@[j]).end_time >= cp
                    ==> dates@.contains(spec_day_of(events.workouts@[j].end_time)),
            forall|j: int|
                0 <= j < i && (#[trigger] events.measurements@[j]).timestamp >= cp
                    ==> dates@.contains(spec_day_of(events.measurements@[j].timestamp)),
        decreases events.measurements@.len() - i,
    {
        let e = &events.measurements[i];
        if e.timestamp >= cp {
            let d = day_of(e.timestamp);
            proof {
                assert((events.measurements@[i as int]).timestamp >= cp && spec_day_of(
                    events.measurements@[i as int].timestamp,
                ) == d);
                assert(date_occurs(*events, cp, d));
            }
            insert_day(&mut dates, d);
        }
        i += 1;
    }
    let mut i: usize = 0;
    while i < events.reviews.len()
        invariant
            0 <= i <= events.reviews@.len(),
            forall|a: int, b: int| 0 <= a < b < dates@.len() ==> dates@[a] != dates@[b],
            forall|k: int| 0 <= k < dates@.len() ==> date_occurs(*events, cp, #[trigger] dates@[k]),
            forall|j: int|
                0 <= j < events.seen@.len() && passes_seen(#[trigger] events.seen@[j], cp)
                    ==> dates@.contains(events.seen@[j].finished_on.unwrap()),
            forall|j: int|
                0 <= j < events.workouts@.len() && (#[trigger] events.workouts@[j]).end_time >= cp
                    ==> dates@.contains(spec_day_of(events.workouts@[j].end_time)),
            forall|j: int|
                0 <= j < events.measurements@.len() && (#[trigger] events.measurements@[j]).timestamp
                    >= cp ==> dates@.contains(spec_day_of(events.measurements@[j].timestamp)),
            forall|j: int|
                0 <= j < i && (#[trigger] events.reviews@[j]).posted_on >= cp ==> dates@.contains(
                    spec_day_of(events.reviews@[j].posted_on),
                ),
        decreases events.reviews@.len() - i,
    {
        let e = &events.reviews[i];
        if e.posted_on >= cp {
            let d = day_of(e.posted_on);
            proof {
                assert((events.reviews@[i as int]).posted_on >= cp && spec_day_of(
                    events.reviews@[i as int].posted_on,
                ) == d);
                assert(date_occurs(*events, cp, d));
            }
            insert_day(&mut dates, d);
        }
        i += 1;
    }

    let mut rows: Vec<DailyUserActivity> = Vec::new();
    let mut k: usize = 0;
    while k < dates.len()
        invariant
            0 <= k <= dates@.len(),
            rows@.len() == k,
            forall|a: int, b: int| 0 <= a < b < dates@.len() ==> dates@[a] != dates@[b],
            forall|j: int| 0 <= j < dates@.len() ==> date_occurs(*events, cp, #[trigger] dates@[j]),
            forall|j: int|
                0 <= j < events.seen@.len() && passes_seen(#[trigger] events.seen@[j], cp)
                    ==> dates@.contains(events.seen@[j].finished_on.unwrap()),
            forall|j: int|
                0 <= j < events.workouts@.len() && (#[trigger] events.workouts@[j]).end_time >= cp
                    ==> dates@.contains(spec_day_of(events.workouts@[j].end_time)),
            forall|j: int|
                0 <= j < events.measurements@.len() && (#[trigger] events.measurements@[j]).timestamp
                    >= cp ==> dates@.contains(spec_day_of(events.measurements@[j].timestamp)),
            forall|j: int|
                0 <= j < events.reviews@.len() && (#[trigger] events.reviews@[j]).posted_on >= cp
                    ==> dates@.contains(spec_day_of(events.reviews@[j].posted_on)),
            forall|j: int| 0 <= j < k ==> (#[trigger] rows@[j]).date == dates@[j],
            forall|j: int|
                0 <= j < k ==> (#[trigger] rows@[j]) == spec_day_row(*events, cp, dates@[j]),
        decreases dates@.len() - k,
    {
        let d = dates[k];
        let mut bag = hour_bag_new();
        let s = scan_seen_day(&events.seen, cp, d, &mut bag);
        let w = scan_workout_day(&events.workouts, cp, d, &mut bag);
        let mc = scan_measurement_day(&events.measurements, cp, d, &mut bag);
        let rc = scan_review_day(&events.reviews, cp, d, &mut bag);
        proof {
            assert_multisets_equal!(hour_counts(bag), day_hours(*events, cp, d));
        }
        let (top, bottom) = histogram_hours(&bag);
        let coincide = match (top, bottom) {
            (Some(a), Some(b)) => a == b,
            (None, None) => true,
            _ => false,
        };
        let row = DailyUserActivity {
            date: d,
            book_count: s.book,
            movie_count: s.movie,
            show_count: s.show,
            podcast_count: s.podcast,
            anime_count: s.anime,
            manga_count: s.manga,
            audio_book_count: s.audio_book,
            video_game_count: s.video_game,
            visual_novel_count: s.visual_novel,
            workout_count: w.0,
            workout_duration: w.1,
            measurement_count: mc,
            review_count: rc,
            show_duration: s.show_dur,
            podcast_duration: s.podcast_dur,
            audio_book_duration: s.audio_dur,
            movie_duration: s.movie_dur,
            most_active_hour: if coincide {
                None
            } else {
                top
            },
            least_active_hour: if coincide {
                None
            } else {
                bottom
            },
        };
        proof {
            assert(row == spec_day_row(*events, cp, d));
        }
        rows.push(row);
        k += 1;
    }
    proof {
        assert forall|i: int|
            0 <= i < events.seen@.len() && passes_seen(#[trigger] events.seen@[i], cp) implies exists|j: int|
            0 <= j < rows@.len() && (#[trigger] rows@[j]).date == events.seen@[i].finished_on.unwrap() by {
            let d = events.seen@[i].finished_on.unwrap();
            let j = choose|j: int| 0 <= j < dates@.len() && dates@[j] == d;
            assert(rows@[j].date == d);
        }
        assert forall|i: int|
            0 <= i < events.workouts@.len() && (#[trigger] events.workouts@[i]).end_time >= cp implies exists|j: int|
            0 <= j < rows@.len() && (#[trigger] rows@[j]).date == spec_day_of(
                events.workouts@[i].end_time,
            ) by {
            let d = spec_day_of(events.workouts@[i].end_time);
            let j = choose|j: int| 0 <= j < dates@.len() && dates@[j] == d;
            assert(rows@[j].date == d);
        }
        assert forall|i: int|
            0 <= i < events.measurements@.len() && (#[trigger] events.measurements@[i]).timestamp
            >= cp implies exists|j: int|
            0 <= j < rows@.len() && (#[trigger] rows@[j]).date == spec_day_of(
                events.measurements@[i].timestamp,
            ) by {
            let d = spec_day_of(events.measurements@[i].timestamp);
            let j = choose|j: int| 0 <= j < dates@.len() && dates@[j] == d;
            assert(rows@[j].date == d);
        }
        assert forall|i: int|
            0 <= i < events.reviews@.len() && (#[trigger] events.reviews@[i]).posted_on
            >= cp implies exists|j: int|
            0 <= j < rows@.len() && (#[trigger] rows@[j]).date == spec_day_of(
                events.reviews@[i].posted_on,
            ) by {
            let d = spec_day_of(events.reviews@[i].posted_on);
            let j = choose|j: int| 0 <= j < dates@.len() && dates@[j] == d;
            assert(rows@[j].date == d);
        }
    }
    rows
}

fn insert_day(v: &mut Vec<i64>, d: i64)
    ensures
        final(v)@ == (if old(v)@.contains(d) {
            old(v)@
        } else {
            old(v)@.push(d)
        }),
        final(v)@.contains(d),
        forall|y: i64| old(v)@.contains(y) ==> final(v)@.contains(y),
        (forall|a: int, b: int| 0 <= a < b < old(v)@.len() ==> old(v)@[a] != old(v)@[b])
            ==> (forall|a: int, b: int|
            0 <= a < b < final(v)@.len() ==> final(v)@[a] != final(v)@[b]),
{
    proof {
        if !v@.contains(d) {
            assert(forall|k: int| 0 <= k < v@.len() ==> v@[k] != d);
            assert(v@.push(d)[v@.len() as int] == d);
            assert(v@.push(d).contains(d));
            assert forall|y: i64| v@.contains(y) implies v@.push(d).contains(y) by {
                let idx = choose|idx: int| 0 <= idx < v@.len() && v@[idx] == y;
                assert(v@.push(d)[idx] == y);
            }
        }
    }
    let mut i: usize = 0;
    while i < v.len()
        invariant
            0 <= i <= v@.len(),
            forall|k: int| 0 <= k < i ==> v@[k] != d,
        decreases v@.len() - i,
    {
        if v[i] == d {
            proof {
                assert(v@.contains(d));
            }
            return;
        }
        i += 1;
    }
    proof {
        assert(!v@.contains(d));
    }
    v.push(d);
}

} // verus!
