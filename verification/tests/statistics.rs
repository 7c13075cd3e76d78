use media_tracker::activity::{calculate_user_activities, ActivityEvents};
use media_tracker::stats::{
    calculate_user_summary, MeasurementEvent, ReviewEvent, SeenEvent, SummaryCounters,
    SummaryEvents, UniqueItems, UserSummary, WorkoutEvent,
};
use media_tracker::types::{
    BookSpecifics, MediaLot, MovieSpecifics, SeenShowExtraInformation, ShowEpisode, ShowSeason,
    ShowSpecifics,
};
use media_tracker::FixedValue;

fn zero_counters() -> SummaryCounters {
    SummaryCounters {
        books_read: 0,
        books_pages: 0,
        movies_watched: 0,
        movies_runtime: 0,
        shows_watched: 0,
        shows_watched_episodes: 0,
        shows_watched_seasons: 0,
        shows_runtime: 0,
        podcasts_played: 0,
        podcasts_played_episodes: 0,
        podcasts_runtime: 0,
        anime_watched: 0,
        anime_episodes: 0,
        manga_read: 0,
        manga_chapters: 0,
        audio_books_played: 0,
        audio_books_runtime: 0,
        visual_novels_played: 0,
        visual_novels_runtime: 0,
        video_games_played: 0,
        metadata_reviewed: 0,
        metadata_interacted_with: 0,
        people_reviewed: 0,
        people_interacted_with: 0,
        measurements_recorded: 0,
        exercises_interacted_with: 0,
        workouts_recorded: 0,
        workouts_duration: FixedValue { hundredths: 0 },
        workouts_weight: FixedValue { hundredths: 0 },
    }
}

fn empty_unique() -> UniqueItems {
    UniqueItems {
        audio_books: Vec::new(),
        books: Vec::new(),
        movies: Vec::new(),
        anime: Vec::new(),
        manga: Vec::new(),
        shows: Vec::new(),
        podcasts: Vec::new(),
        video_games: Vec::new(),
        visual_novels: Vec::new(),
        anime_episodes: Vec::new(),
        podcast_episodes: Vec::new(),
        manga_chapters: Vec::new(),
        manga_volumes: Vec::new(),
        show_seasons: Vec::new(),
        show_episodes: Vec::new(),
    }
}

fn empty_summary() -> UserSummary {
    UserSummary {
        counters: zero_counters(),
        unique: empty_unique(),
        calculated_on: 0,
        is_fresh: false,
    }
}

fn empty_events() -> SummaryEvents {
    SummaryEvents {
        seen: Vec::new(),
        reviews: Vec::new(),
        measurements: Vec::new(),
        workouts: Vec::new(),
        interactions: Vec::new(),
    }
}

fn book_event(id: u64, pages: i32, at: i64) -> SeenEvent {
    SeenEvent {
        metadata_id: id,
        metadata_lot: MediaLot::Book,
        finished_on: Some(at / 86_400),
        last_updated_on: at,
        show_extra_information: None,
        podcast_extra_information: None,
        anime_extra_information: None,
        manga_extra_information: None,
        audio_book_specifics: None,
        book_specifics: Some(BookSpecifics { pages: Some(pages) }),
        movie_specifics: None,
        anime_specifics: None,
        manga_specifics: None,
        show_specifics: None,
        podcast_specifics: None,
        video_game_specifics: None,
        visual_novel_specifics: None,
    }
}

fn movie_event(id: u64, runtime: i32, at: i64) -> SeenEvent {
    let mut e = book_event(id, 0, at);
    e.metadata_lot = MediaLot::Movie;
    e.book_specifics = None;
    e.movie_specifics = Some(MovieSpecifics { runtime: Some(runtime) });
    e
}

#[test]
fn a_forced_recompute_counts_books_and_pages_exactly() {
    let events = SummaryEvents {
        seen: vec![
            book_event(1, 120, 1_000),
            book_event(2, 200, 2_000),
            book_event(1, 120, 3_000),
        ],
        ..empty_events()
    };
    let r = calculate_user_summary(empty_summary(), &events, true, 10_000);
    assert!(r.reset_units_first);
    assert!(r.summary.is_fresh);
    assert_eq!(r.summary.calculated_on, 10_000);
    // two distinct books; pages accumulate per event
    assert_eq!(r.summary.counters.books_read, 2);
    assert_eq!(r.summary.counters.books_pages, 440);
    // each page-bearing event reports a per-entity unit update
    assert_eq!(r.units_updates.len(), 3);
    assert_eq!(r.units_updates[0].metadata_id, 1);
    assert_eq!(r.units_updates[0].units, 120);
}

#[test]
fn a_second_run_with_no_new_events_changes_no_counter() {
    let events = SummaryEvents {
        seen: vec![book_event(1, 120, 1_000), movie_event(9, 95, 2_000)],
        reviews: vec![ReviewEvent { posted_on: 1_500, on_metadata: true, on_person: false }],
        measurements: vec![MeasurementEvent { timestamp: 1_600 }],
        workouts: vec![WorkoutEvent {
            end_time: 1_700,
            duration: 600,
            weight: FixedValue { hundredths: 5_000 },
        }],
        ..empty_events()
    };
    let first = calculate_user_summary(empty_summary(), &events, true, 5_000);
    let counters_after_first = first.summary.counters;
    let second = calculate_user_summary(first.summary, &events, false, 9_000);
    assert_eq!(second.summary.counters, counters_after_first);
    assert_eq!(second.summary.calculated_on, 9_000);
    assert!(!second.summary.is_fresh);
    assert!(second.units_updates.is_empty());
}

#[test]
fn an_incremental_run_scans_only_newer_events() {
    let old_events = SummaryEvents {
        seen: vec![book_event(1, 100, 1_000)],
        ..empty_events()
    };
    let first = calculate_user_summary(empty_summary(), &old_events, true, 2_000);
    let both = SummaryEvents {
        seen: vec![book_event(1, 100, 1_000), book_event(2, 50, 3_000)],
        ..empty_events()
    };
    let second = calculate_user_summary(first.summary, &both, false, 4_000);
    assert_eq!(second.summary.counters.books_read, 2);
    // the old event is not re-added
    assert_eq!(second.summary.counters.books_pages, 150);
}

#[test]
fn workout_scalars_accumulate() {
    let events = SummaryEvents {
        workouts: vec![
            WorkoutEvent { end_time: 100, duration: 600, weight: FixedValue { hundredths: 5_000 } },
            WorkoutEvent { end_time: 200, duration: 60, weight: FixedValue { hundredths: 1_000 } },
        ],
        ..empty_events()
    };
    let r = calculate_user_summary(empty_summary(), &events, true, 1_000);
    assert_eq!(r.summary.counters.workouts_recorded, 2);
    // 660 seconds are 11 minutes
    assert_eq!(r.summary.counters.workouts_duration, FixedValue { hundredths: 1_100 });
    assert_eq!(r.summary.counters.workouts_weight, FixedValue { hundredths: 6_000 });
}

#[test]
fn activity_rows_bucket_by_date_with_exact_counts() {
    let day: i64 = 19_700;
    let at = |hour: i64| day * 86_400 + hour * 3_600;
    let events = ActivityEvents {
        seen: vec![movie_event(9, 95, at(5)), movie_event(10, 80, at(5))],
        workouts: vec![WorkoutEvent {
            end_time: at(7),
            duration: 1_800,
            weight: FixedValue { hundredths: 0 },
        }],
        measurements: vec![MeasurementEvent { timestamp: at(5) }],
        reviews: Vec::new(),
    };
    let rows = calculate_user_activities(&events, 0);
    assert_eq!(rows.len(), 1);
    let row = &rows[0];
    assert_eq!(row.date, day);
    assert_eq!(row.movie_count, 2);
    assert_eq!(row.movie_duration, 175);
    assert_eq!(row.workout_count, 1);
    assert_eq!(row.workout_duration, 30);
    assert_eq!(row.measurement_count, 1);
    // hour 5 saw three events, hour 7 a single one
    assert_eq!(row.most_active_hour, Some(5));
    assert_eq!(row.least_active_hour, Some(7));
}

#[test]
fn a_flat_histogram_records_no_active_hours() {
    let day: i64 = 19_700;
    let at = |hour: i64| day * 86_400 + hour * 3_600;
    let events = ActivityEvents {
        seen: vec![movie_event(9, 95, at(5))],
        workouts: Vec::new(),
        measurements: Vec::new(),
        reviews: Vec::new(),
    };
    let rows = calculate_user_activities(&events, 0);
    assert_eq!(rows.len(), 1);
    assert_eq!(rows[0].most_active_hour, None);
    assert_eq!(rows[0].least_active_hour, None);
}

#[test]
fn activity_rows_respect_the_checkpoint() {
    let day: i64 = 19_700;
    let at = |d: i64, hour: i64| d * 86_400 + hour * 3_600;
    let events = ActivityEvents {
        seen: vec![movie_event(9, 95, at(day - 5, 4)), movie_event(10, 80, at(day, 4))],
        workouts: Vec::new(),
        measurements: Vec::new(),
        reviews: Vec::new(),
    };
    let rows = calculate_user_activities(&events, at(day - 1, 0));
    assert_eq!(rows.len(), 1);
    assert_eq!(rows[0].date, day);
    assert_eq!(rows[0].movie_count, 1);
}

#[test]
fn show_episodes_count_distinctly_and_sum_runtime() {
    let show = ShowSpecifics {
        seasons: vec![ShowSeason {
            season_number: 1,
            name: String::from("Season 1"),
            episodes: vec![
                ShowEpisode {
                    episode_number: 1,
                    name: String::from("One"),
                    poster_images: Vec::new(),
                    publish_date: None,
                    runtime: Some(40),
                },
                ShowEpisode {
                    episode_number: 2,
                    name: String::from("Two"),
                    poster_images: Vec::new(),
                    publish_date: None,
                    runtime: Some(45),
                },
            ],
        }],
    };
    let ep = |n: i32, at: i64| {
        let mut e = book_event(7, 0, at);
        e.metadata_lot = MediaLot::Show;
        e.book_specifics = None;
        e.show_specifics = Some(show.clone());
        e.show_extra_information = Some(SeenShowExtraInformation { season: 1, episode: n });
        e
    };
    let events = SummaryEvents {
        seen: vec![ep(1, 100), ep(2, 200), ep(1, 300)],
        ..empty_events()
    };
    let r = calculate_user_summary(empty_summary(), &events, true, 1_000);
    assert_eq!(r.summary.counters.shows_watched, 1);
    // the rewatched episode counts once in the distinct set
    assert_eq!(r.summary.counters.shows_watched_episodes, 2);
    assert_eq!(r.summary.counters.shows_watched_seasons, 1);
    // runtime accumulates per event
    assert_eq!(r.summary.counters.shows_runtime, 125);
    assert_eq!(r.units_updates.len(), 3);
}
