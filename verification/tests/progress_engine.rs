use media_tracker::progress::{
    select_progress_action, update_progress, ProgressUpdateAction, ProgressUpdateErrorVariant,
    ProgressUpdateInput,
};
use media_tracker::types::{MediaLot, SeenRecord, SeenState};
use media_tracker::{FixedValue, PROGRESS_FULL};

fn pct(n: i64) -> FixedValue {
    FixedValue { hundredths: n * 100 }
}

fn input(progress: Option<FixedValue>) -> ProgressUpdateInput {
    ProgressUpdateInput {
        progress,
        change_state: None,
        date: None,
        show_season_number: None,
        show_episode_number: None,
        podcast_episode_number: None,
        anime_episode_number: None,
        manga_chapter_number: None,
        manga_volume_number: None,
        provider_watched_on: None,
    }
}

const TODAY: i64 = 19_700;
const NOW: i64 = 19_700 * 86_400 + 3_600;

#[test]
fn starting_a_session_sets_start_date_only() {
    let mut history: Vec<SeenRecord> = Vec::new();
    let r = update_progress(
        &mut history,
        MediaLot::Book,
        &input(Some(pct(35))),
        TODAY,
        NOW,
        TODAY,
        false,
        false,
    );
    let outcome = r.unwrap();
    assert_eq!(outcome.index, 0);
    assert!(!outcome.completed);
    assert_eq!(history.len(), 1);
    let rec = &history[0];
    assert_eq!(rec.state, SeenState::InProgress);
    assert_eq!(rec.progress, pct(35));
    assert_eq!(rec.started_on, Some(TODAY));
    assert_eq!(rec.finished_on, None);
    assert_eq!(rec.updated_at.len(), 1);
}

#[test]
fn identical_progress_and_provenance_is_no_progress_change() {
    let mut history: Vec<SeenRecord> = Vec::new();
    update_progress(
        &mut history,
        MediaLot::Book,
        &input(Some(pct(35))),
        TODAY,
        NOW,
        TODAY,
        false,
        false,
    )
    .unwrap();
    let before = history[0].updated_at.clone();
    let r = update_progress(
        &mut history,
        MediaLot::Book,
        &input(Some(pct(35))),
        TODAY,
        NOW + 10,
        TODAY,
        false,
        false,
    );
    assert_eq!(r, Err(ProgressUpdateErrorVariant::NoProgressChange));
    assert_eq!(history.len(), 1);
    assert_eq!(history[0].updated_at, before);
}

#[test]
fn end_to_end_single_record_completes_with_two_touches() {
    let mut history: Vec<SeenRecord> = Vec::new();
    update_progress(
        &mut history,
        MediaLot::Book,
        &input(Some(pct(35))),
        TODAY,
        NOW,
        TODAY,
        false,
        false,
    )
    .unwrap();
    let mut second = input(Some(pct(100)));
    second.date = Some(TODAY);
    let r = update_progress(
        &mut history,
        MediaLot::Book,
        &second,
        TODAY,
        NOW + 100,
        TODAY,
        false,
        false,
    )
    .unwrap();
    assert!(r.completed);
    assert_eq!(history.len(), 1);
    let rec = &history[0];
    assert_eq!(rec.state, SeenState::Completed);
    assert_eq!(rec.progress.hundredths, PROGRESS_FULL);
    assert_eq!(rec.finished_on, Some(TODAY));
    assert_eq!(rec.updated_at.len(), 2);
}

#[test]
fn full_progress_today_with_no_open_session_files_for_now() {
    let mut i = input(Some(pct(100)));
    i.date = Some(TODAY);
    assert_eq!(
        select_progress_action(&i, false, TODAY),
        Ok(ProgressUpdateAction::Now)
    );
    assert_eq!(
        select_progress_action(&i, true, TODAY),
        Ok(ProgressUpdateAction::Update)
    );
}

#[test]
fn full_progress_on_another_day_files_for_the_past() {
    let mut i = input(Some(pct(100)));
    i.date = Some(TODAY - 3);
    assert_eq!(
        select_progress_action(&i, true, TODAY),
        Ok(ProgressUpdateAction::InThePast)
    );
    i.date = None;
    assert_eq!(
        select_progress_action(&i, true, TODAY),
        Ok(ProgressUpdateAction::InThePast)
    );
}

#[test]
fn missing_progress_and_state_is_rejected() {
    let mut history: Vec<SeenRecord> = Vec::new();
    let r = update_progress(
        &mut history,
        MediaLot::Book,
        &input(None),
        TODAY,
        NOW,
        TODAY,
        false,
        false,
    );
    assert_eq!(r, Err(ProgressUpdateErrorVariant::MissingProgressOrState));
    assert!(history.is_empty());
}

#[test]
fn cache_hit_reports_already_seen() {
    let mut history: Vec<SeenRecord> = Vec::new();
    let r = update_progress(
        &mut history,
        MediaLot::Book,
        &input(Some(pct(100))),
        TODAY,
        NOW,
        TODAY,
        true,
        true,
    );
    assert_eq!(r, Err(ProgressUpdateErrorVariant::AlreadySeen));
    assert!(history.is_empty());
}

#[test]
fn show_without_season_or_episode_is_rejected() {
    let mut history: Vec<SeenRecord> = Vec::new();
    let r = update_progress(
        &mut history,
        MediaLot::Show,
        &input(Some(pct(40))),
        TODAY,
        NOW,
        TODAY,
        false,
        false,
    );
    assert_eq!(r, Err(ProgressUpdateErrorVariant::MissingSeasonNumber));
    let mut with_season = input(Some(pct(40)));
    with_season.show_season_number = Some(1);
    let r = update_progress(
        &mut history,
        MediaLot::Show,
        &with_season,
        TODAY,
        NOW,
        TODAY,
        false,
        false,
    );
    assert_eq!(r, Err(ProgressUpdateErrorVariant::MissingEpisodeNumber));
    assert!(history.is_empty());
}

#[test]
fn podcast_without_episode_is_rejected() {
    let mut history: Vec<SeenRecord> = Vec::new();
    let r = update_progress(
        &mut history,
        MediaLot::Podcast,
        &input(Some(pct(40))),
        TODAY,
        NOW,
        TODAY,
        false,
        false,
    );
    assert_eq!(r, Err(ProgressUpdateErrorVariant::MissingEpisodeNumber));
}

#[test]
fn change_state_without_any_record_reports_no_active_session() {
    let mut history: Vec<SeenRecord> = Vec::new();
    let mut i = input(None);
    i.change_state = Some(SeenState::Dropped);
    let r = update_progress(
        &mut history,
        MediaLot::Book,
        &i,
        TODAY,
        NOW,
        TODAY,
        false,
        false,
    );
    assert_eq!(r, Err(ProgressUpdateErrorVariant::NoActiveSession));
}

#[test]
fn change_state_drops_the_most_recent_record() {
    let mut history: Vec<SeenRecord> = Vec::new();
    update_progress(
        &mut history,
        MediaLot::Book,
        &input(Some(pct(20))),
        TODAY,
        NOW,
        TODAY,
        false,
        false,
    )
    .unwrap();
    let mut i = input(None);
    i.change_state = Some(SeenState::Dropped);
    let r = update_progress(
        &mut history,
        MediaLot::Book,
        &i,
        TODAY,
        NOW + 5,
        TODAY,
        false,
        false,
    )
    .unwrap();
    assert_eq!(r.index, 0);
    assert_eq!(history[0].state, SeenState::Dropped);
    assert_eq!(history[0].progress, pct(20));
    assert_eq!(history[0].updated_at.len(), 2);
}

#[test]
fn new_provenance_alone_updates_the_open_session() {
    let mut history: Vec<SeenRecord> = Vec::new();
    update_progress(
        &mut history,
        MediaLot::Book,
        &input(Some(pct(35))),
        TODAY,
        NOW,
        TODAY,
        false,
        false,
    )
    .unwrap();
    let mut i = input(Some(pct(35)));
    i.provider_watched_on = Some(String::from("someapp"));
    let r = update_progress(
        &mut history,
        MediaLot::Book,
        &i,
        TODAY,
        NOW + 9,
        TODAY,
        false,
        false,
    );
    assert!(r.is_ok());
    // progress did not move, so no touch is appended
    assert_eq!(history[0].updated_at.len(), 1);
    assert_eq!(history[0].provider_watched_on.as_deref(), Some("someapp"));
}

#[test]
fn a_manga_chapter_report_rewrites_the_open_sessions_coordinate() {
    let mut history: Vec<SeenRecord> = Vec::new();
    let mut first = input(Some(pct(10)));
    first.manga_chapter_number = Some(pct(3));
    update_progress(
        &mut history,
        MediaLot::Manga,
        &first,
        TODAY,
        NOW,
        TODAY,
        false,
        false,
    )
    .unwrap();
    // chapters can arrive out of order, so a continued session takes the
    // newly reported chapter
    let mut second = input(Some(pct(20)));
    second.manga_chapter_number = Some(pct(2));
    update_progress(
        &mut history,
        MediaLot::Manga,
        &second,
        TODAY,
        NOW + 1,
        TODAY,
        false,
        false,
    )
    .unwrap();
    assert_eq!(history.len(), 1);
    let info = history[0].manga_extra_information.unwrap();
    assert_eq!(info.chapter, Some(pct(2)));
}

#[test]
fn a_completed_record_asked_back_into_progress_stays_completed() {
    let mut history: Vec<SeenRecord> = Vec::new();
    let mut done = input(Some(pct(100)));
    done.date = Some(TODAY - 2);
    update_progress(
        &mut history,
        MediaLot::Book,
        &done,
        TODAY,
        NOW,
        TODAY,
        false,
        false,
    )
    .unwrap();
    assert_eq!(history[0].state, SeenState::Completed);
    let mut back = input(None);
    back.change_state = Some(SeenState::InProgress);
    update_progress(
        &mut history,
        MediaLot::Book,
        &back,
        TODAY,
        NOW + 1,
        TODAY,
        false,
        false,
    )
    .unwrap();
    // saving a full-progress record as in-progress stores it completed
    assert_eq!(history[0].state, SeenState::Completed);
}

#[test]
fn a_past_completion_opens_a_fresh_session_beside_the_open_one() {
    let mut history: Vec<SeenRecord> = Vec::new();
    update_progress(
        &mut history,
        MediaLot::Book,
        &input(Some(pct(50))),
        TODAY,
        NOW,
        TODAY,
        false,
        false,
    )
    .unwrap();
    let mut past = input(Some(pct(100)));
    past.date = Some(TODAY - 30);
    update_progress(
        &mut history,
        MediaLot::Book,
        &past,
        TODAY,
        NOW + 1,
        TODAY,
        false,
        false,
    )
    .unwrap();
    // the past completion is a fresh record; the open session survives
    assert_eq!(history.len(), 2);
    assert_eq!(history[0].state, SeenState::InProgress);
    assert_eq!(history[1].state, SeenState::Completed);
    assert_eq!(history[1].finished_on, Some(TODAY - 30));
    assert_eq!(history[1].started_on, None);
}
