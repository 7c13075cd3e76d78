use media_tracker::clock::{current_day_in_zone, current_unix_seconds, current_utc_day};
use media_tracker::fitness::{
    get_best_set, workout_set_score, SetLot, SetStatistic, WorkoutSetRecord,
};
use media_tracker::listing::{media_consumed, page_bounds, SeenStatus};
use media_tracker::types::{SeenRecord, SeenState, ShowEpisode, ShowSeason, ShowSpecifics};
use media_tracker::{sat_add_i64, sat_add_u64, FixedValue, PROGRESS_FULL};

fn record(progress_pct: i64) -> SeenRecord {
    SeenRecord {
        state: if progress_pct >= 100 {
            SeenState::Completed
        } else {
            SeenState::InProgress
        },
        progress: FixedValue { hundredths: progress_pct * 100 },
        started_on: None,
        finished_on: None,
        updated_at: vec![0],
        provider_watched_on: None,
        show_extra_information: None,
        podcast_extra_information: None,
        anime_extra_information: None,
        manga_extra_information: None,
    }
}

fn set(duration: i64, weight: i64) -> WorkoutSetRecord {
    WorkoutSetRecord {
        statistic: SetStatistic {
            duration: Some(FixedValue { hundredths: duration }),
            distance: None,
            reps: None,
            weight: Some(FixedValue { hundredths: weight }),
        },
        lot: SetLot::Normal,
        personal_bests: Vec::new(),
    }
}

#[test]
fn consumption_status_follows_the_latest_record() {
    let r = media_consumed(String::from("x"), None);
    assert_eq!(r.seen, SeenStatus::NotInDatabase);
    let r = media_consumed(String::from("x"), Some(&Vec::new()));
    assert_eq!(r.seen, SeenStatus::NotConsumed);
    let underway = vec![record(100), record(40)];
    let r = media_consumed(String::from("x"), Some(&underway));
    assert_eq!(r.seen, SeenStatus::CurrentlyUnderway);
    let done = vec![record(40), record(100)];
    let r = media_consumed(String::from("x"), Some(&done));
    assert_eq!(r.seen, SeenStatus::ConsumedAtleastOnce);
    assert_eq!(r.identifier, "x");
}

#[test]
fn page_bounds_slice_a_listing() {
    assert_eq!(page_bounds(25, 1, 10), (0, 10));
    assert_eq!(page_bounds(25, 3, 10), (20, 25));
    assert_eq!(page_bounds(25, 4, 10), (25, 25));
    assert_eq!(page_bounds(0, 1, 10), (0, 0));
}

#[test]
fn the_best_set_is_the_last_highest_scorer() {
    let records = vec![set(100, 50), set(80, 70), set(100, 50)];
    // two sets tie at 150; the last one wins
    assert_eq!(get_best_set(&records), Some(2));
    assert!(get_best_set(&Vec::new()).is_none());
    assert_eq!(workout_set_score(&records[0]), 150);
}

#[test]
fn fixed_values_convert_between_forms() {
    let v = FixedValue::from_int(35);
    assert_eq!(v.hundredths, 3_500);
    assert_eq!(v.floor_int(), 35);
    assert_eq!(FixedValue { hundredths: PROGRESS_FULL }.floor_int(), 100);
    assert_eq!(FixedValue { hundredths: 1_050 }.floor_int(), 10);
}

#[test]
fn saturating_additions_clamp_at_the_bounds() {
    assert_eq!(sat_add_u64(1, 2), 3);
    assert_eq!(sat_add_u64(u64::MAX - 1, 5), u64::MAX);
    assert_eq!(sat_add_i64(-5, 2), -3);
    assert_eq!(sat_add_i64(i64::MAX - 1, 5), i64::MAX);
    assert_eq!(sat_add_i64(i64::MIN + 1, -5), i64::MIN);
}

#[test]
fn the_clock_reports_consistent_days() {
    let secs = current_unix_seconds();
    let day = current_utc_day();
    // the UTC day must match the day derived from the instant
    assert!((day - secs / 86_400).abs() <= 1);
    let utc = current_day_in_zone("UTC").unwrap();
    assert!((utc - day).abs() <= 1);
    assert!(current_day_in_zone("Not/AZone").is_none());
}

#[test]
fn episode_lookup_searches_only_the_first_matching_season() {
    let ep = |n: i32, runtime: i32| ShowEpisode {
        episode_number: n,
        name: format!("Episode {}", n),
        poster_images: Vec::new(),
        publish_date: None,
        runtime: Some(runtime),
    };
    let show = ShowSpecifics {
        seasons: vec![
            ShowSeason {
                season_number: 1,
                name: String::from("First"),
                episodes: vec![ep(1, 40)],
            },
            ShowSeason {
                season_number: 1,
                name: String::from("Duplicate"),
                episodes: vec![ep(1, 99), ep(2, 99)],
            },
        ],
    };
    let (season, episode) = show.get_episode(1, 1).unwrap();
    assert_eq!(season.name, "First");
    assert_eq!(episode.runtime, Some(40));
    // the episode is looked up in the first season carrying the number only
    assert!(show.get_episode(1, 2).is_none());
}
