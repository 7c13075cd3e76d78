use media_tracker::finished::is_metadata_finished_by_user;
use media_tracker::membership::{
    after_media_seen_tasks, apply_collection_ops, CollectionAction, CollectionMembership,
    CollectionOp,
};
use media_tracker::types::{
    DefaultCollection, MediaDetails, MediaLot, SeenRecord, SeenShowExtraInformation, SeenState,
    ShowEpisode, ShowSeason, ShowSpecifics,
};
use media_tracker::FixedValue;

fn empty_details() -> MediaDetails {
    MediaDetails {
        title: String::from("An Entity"),
        description: None,
        production_status: None,
        publish_year: None,
        publish_date: None,
        show_specifics: None,
        podcast_specifics: None,
        anime_specifics: None,
        manga_specifics: None,
        movie_specifics: None,
        book_specifics: None,
        audio_book_specifics: None,
        visual_novel_specifics: None,
        video_game_specifics: None,
        genres: Vec::new(),
        people: Vec::new(),
        suggestions: Vec::new(),
        group_identifiers: Vec::new(),
    }
}

fn episode(n: i32) -> ShowEpisode {
    ShowEpisode {
        episode_number: n,
        name: format!("Episode {}", n),
        poster_images: Vec::new(),
        publish_date: None,
        runtime: Some(40),
    }
}

fn show_with_two_seasons() -> MediaDetails {
    let mut d = empty_details();
    d.show_specifics = Some(ShowSpecifics {
        seasons: vec![
            ShowSeason {
                season_number: 1,
                name: String::from("Season 1"),
                episodes: vec![episode(1), episode(2), episode(3)],
            },
            ShowSeason {
                season_number: 2,
                name: String::from("Season 2"),
                episodes: vec![episode(1), episode(2)],
            },
        ],
    });
    d
}

fn show_record(season: i32, ep: i32) -> SeenRecord {
    SeenRecord {
        state: SeenState::Completed,
        progress: FixedValue { hundredths: 10_000 },
        started_on: None,
        finished_on: Some(19_700),
        updated_at: vec![0],
        provider_watched_on: None,
        show_extra_information: Some(SeenShowExtraInformation { season, episode: ep }),
        podcast_extra_information: None,
        anime_extra_information: None,
        manga_extra_information: None,
    }
}

fn plain_record(state: SeenState) -> SeenRecord {
    SeenRecord {
        state,
        progress: FixedValue { hundredths: 10_000 },
        started_on: None,
        finished_on: None,
        updated_at: vec![0],
        provider_watched_on: None,
        show_extra_information: None,
        podcast_extra_information: None,
        anime_extra_information: None,
        manga_extra_information: None,
    }
}

#[test]
fn all_five_episodes_seen_once_is_finished() {
    let meta = show_with_two_seasons();
    let history = vec![
        show_record(1, 1),
        show_record(1, 2),
        show_record(1, 3),
        show_record(2, 1),
        show_record(2, 2),
    ];
    assert!(is_metadata_finished_by_user(
        MediaLot::Show,
        &meta,
        &history,
        &Vec::new()
    ));
}

#[test]
fn four_of_five_episodes_is_not_finished() {
    let meta = show_with_two_seasons();
    let history = vec![
        show_record(1, 1),
        show_record(1, 2),
        show_record(1, 3),
        show_record(2, 1),
    ];
    assert!(!is_metadata_finished_by_user(
        MediaLot::Show,
        &meta,
        &history,
        &Vec::new()
    ));
}

#[test]
fn a_partial_rewatch_is_not_finished() {
    let meta = show_with_two_seasons();
    let history = vec![
        show_record(1, 1),
        show_record(1, 1),
        show_record(1, 2),
        show_record(1, 3),
        show_record(2, 1),
        show_record(2, 2),
    ];
    assert!(!is_metadata_finished_by_user(
        MediaLot::Show,
        &meta,
        &history,
        &Vec::new()
    ));
}

#[test]
fn a_full_rewatch_is_still_finished() {
    let meta = show_with_two_seasons();
    let mut history = Vec::new();
    for _ in 0..2 {
        history.push(show_record(1, 1));
        history.push(show_record(1, 2));
        history.push(show_record(1, 3));
        history.push(show_record(2, 1));
        history.push(show_record(2, 2));
    }
    assert!(is_metadata_finished_by_user(
        MediaLot::Show,
        &meta,
        &history,
        &Vec::new()
    ));
}

#[test]
fn special_seasons_are_left_out_of_the_expectation() {
    let mut meta = show_with_two_seasons();
    if let Some(s) = &mut meta.show_specifics {
        s.seasons.push(ShowSeason {
            season_number: 0,
            name: String::from("Specials"),
            episodes: vec![episode(1)],
        });
    }
    let history = vec![
        show_record(1, 1),
        show_record(1, 2),
        show_record(1, 3),
        show_record(2, 1),
        show_record(2, 2),
    ];
    let specials = vec![String::from("Specials")];
    assert!(is_metadata_finished_by_user(
        MediaLot::Show,
        &meta,
        &history,
        &specials
    ));
    // without the allow-list the specials season counts and blocks completion
    assert!(!is_metadata_finished_by_user(
        MediaLot::Show,
        &meta,
        &history,
        &Vec::new()
    ));
}

#[test]
fn empty_specifics_count_as_finished_for_episodic_media() {
    let meta = empty_details();
    let history = Vec::new();
    assert!(is_metadata_finished_by_user(
        MediaLot::Show,
        &meta,
        &history,
        &Vec::new()
    ));
}

#[test]
fn continuous_media_finish_on_any_completed_session() {
    let meta = empty_details();
    let history = vec![plain_record(SeenState::Dropped), plain_record(SeenState::Completed)];
    assert!(is_metadata_finished_by_user(
        MediaLot::Movie,
        &meta,
        &history,
        &Vec::new()
    ));
    let unfinished = vec![plain_record(SeenState::Dropped)];
    assert!(!is_metadata_finished_by_user(
        MediaLot::Movie,
        &meta,
        &unfinished,
        &Vec::new()
    ));
}

#[test]
fn every_save_leaves_the_watchlist() {
    for state in [
        SeenState::InProgress,
        SeenState::Completed,
        SeenState::Dropped,
        SeenState::OnAHold,
    ] {
        let ops = after_media_seen_tasks(state, MediaLot::Movie, false);
        assert_eq!(
            ops[0],
            CollectionOp {
                action: CollectionAction::Remove,
                collection: DefaultCollection::Watchlist
            }
        );
    }
}

#[test]
fn in_progress_saves_track_and_monitor() {
    let ops = after_media_seen_tasks(SeenState::InProgress, MediaLot::Book, false);
    assert_eq!(ops.len(), 3);
    assert_eq!(ops[1].action, CollectionAction::Add);
    assert_eq!(ops[1].collection, DefaultCollection::InProgress);
    assert_eq!(ops[2].action, CollectionAction::Add);
    assert_eq!(ops[2].collection, DefaultCollection::Monitoring);
}

#[test]
fn incomplete_episodic_completion_stays_tracked() {
    let ops = after_media_seen_tasks(SeenState::Completed, MediaLot::Show, false);
    assert_eq!(ops.len(), 3);
    assert_eq!(ops[1].action, CollectionAction::Add);
    assert_eq!(ops[1].collection, DefaultCollection::InProgress);
    let done = after_media_seen_tasks(SeenState::Completed, MediaLot::Show, true);
    assert_eq!(done.len(), 3);
    assert_eq!(done[1].action, CollectionAction::Remove);
    assert_eq!(done[1].collection, DefaultCollection::InProgress);
    assert_eq!(done[2].action, CollectionAction::Add);
    assert_eq!(done[2].collection, DefaultCollection::Completed);
}

#[test]
fn continuous_completion_graduates_unconditionally() {
    let ops = after_media_seen_tasks(SeenState::Completed, MediaLot::Movie, false);
    assert_eq!(ops.len(), 4);
    assert_eq!(ops[1].collection, DefaultCollection::Completed);
    assert_eq!(ops[2].action, CollectionAction::Remove);
    assert_eq!(ops[3].action, CollectionAction::Remove);
}

#[test]
fn membership_writes_are_idempotent() {
    let mut m = CollectionMembership {
        watchlist: true,
        in_progress: false,
        completed: false,
        monitoring: false,
    };
    let ops = after_media_seen_tasks(SeenState::InProgress, MediaLot::Book, false);
    apply_collection_ops(&mut m, &ops);
    assert!(!m.watchlist && m.in_progress && m.monitoring && !m.completed);
    apply_collection_ops(&mut m, &ops);
    assert!(!m.watchlist && m.in_progress && m.monitoring && !m.completed);
}

#[test]
fn anime_episode_counts_drive_completion() {
    let mut meta = empty_details();
    meta.anime_specifics = Some(media_tracker::types::AnimeSpecifics { episodes: Some(3) });
    let ep = |n: i32| {
        let mut r = plain_record(SeenState::Completed);
        r.anime_extra_information =
            Some(media_tracker::types::SeenAnimeExtraInformation { episode: Some(n) });
        r
    };
    let full = vec![ep(1), ep(2), ep(3)];
    assert!(is_metadata_finished_by_user(
        MediaLot::Anime,
        &meta,
        &full,
        &Vec::new()
    ));
    let partial = vec![ep(1), ep(2)];
    assert!(!is_metadata_finished_by_user(
        MediaLot::Anime,
        &meta,
        &partial,
        &Vec::new()
    ));
}

#[test]
fn manga_chapters_count_by_whole_chapter_numbers() {
    let mut meta = empty_details();
    meta.manga_specifics = Some(media_tracker::types::MangaSpecifics {
        chapters: Some(FixedValue { hundredths: 250 }),
        volumes: None,
    });
    let ch = |hundredths: i64| {
        let mut r = plain_record(SeenState::Completed);
        r.manga_extra_information = Some(media_tracker::types::SeenMangaExtraInformation {
            chapter: Some(FixedValue { hundredths }),
            volume: None,
        });
        r
    };
    // 2.5 chapters expect the whole chapters 1 and 2
    let full = vec![ch(100), ch(200)];
    assert!(is_metadata_finished_by_user(
        MediaLot::Manga,
        &meta,
        &full,
        &Vec::new()
    ));
    // a half-chapter read does not stand in for a whole one
    let off = vec![ch(150), ch(200)];
    assert!(!is_metadata_finished_by_user(
        MediaLot::Manga,
        &meta,
        &off,
        &Vec::new()
    ));
}
