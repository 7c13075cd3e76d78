use media_tracker::catalog::{
    change_metadata_associations, commit_genre, commit_metadata_create, commit_metadata_lookup,
    commit_person, create_partial_metadata, filter_notices_for_user, get_entities_monitored_by,
    update_metadata, CatalogStore, GenreEdge, MetadataRow, MonitoredEntityRow,
    NotificationPreferences,
};
use media_tracker::import::EntityLot;
use media_tracker::sync::{metadata_diff, ChangeDetail, MediaStateChanged};
use media_tracker::types::{
    MediaDetails, MediaLot, PartialMetadataPerson, PartialMetadataWithoutId, ShowEpisode,
    ShowSeason, ShowSpecifics,
};

fn empty_details(title: &str) -> MediaDetails {
    MediaDetails {
        title: String::from(title),
        description: None,
        production_status: None,
        publish_year: None,
        publish_date: None,
        show_specifics: None,
        podcast_specifics: None,
        anime_specifics: None,
        manga_specifics: None,
        movie_specifics: None,
        book_specifics: None,
        audio_book_specifics: None,
        visual_novel_specifics: None,
        video_game_specifics: None,
        genres: Vec::new(),
        people: Vec::new(),
        suggestions: Vec::new(),
        group_identifiers: Vec::new(),
    }
}

fn episode(n: i32, name: &str) -> ShowEpisode {
    ShowEpisode {
        episode_number: n,
        name: String::from(name),
        poster_images: Vec::new(),
        publish_date: None,
        runtime: Some(40),
    }
}

fn show_details(season1_count: i32, ep3_name: &str) -> MediaDetails {
    let mut eps = Vec::new();
    for n in 1..=season1_count {
        if n == 3 {
            eps.push(episode(n, ep3_name));
        } else {
            eps.push(episode(n, &format!("Episode {}", n)));
        }
    }
    let mut d = empty_details("A Show");
    d.show_specifics = Some(ShowSpecifics {
        seasons: vec![ShowSeason {
            season_number: 1,
            name: String::from("Season 1"),
            episodes: eps,
        }],
    });
    d
}

fn empty_store() -> CatalogStore {
    CatalogStore {
        next_id: 1,
        metadata: Vec::new(),
        people: Vec::new(),
        genres: Vec::new(),
        person_edges: Vec::new(),
        genre_edges: Vec::new(),
        suggestion_edges: Vec::new(),
    }
}

#[test]
fn a_grown_season_yields_exactly_one_episode_count_notice() {
    let stored = show_details(10, "Episode 3");
    let fresh = show_details(11, "Episode 3");
    let notices = metadata_diff(&stored, &fresh, &Vec::new());
    assert_eq!(notices.len(), 1);
    assert_eq!(notices[0].kind, MediaStateChanged::MetadataEpisodeReleased);
    match &notices[0].detail {
        ChangeDetail::SeasonEpisodeCount { season, from, to } => {
            assert_eq!(*season, 1);
            assert_eq!(*from, 10);
            assert_eq!(*to, 11);
        }
        other => panic!("unexpected detail {:?}", other),
    }
}

#[test]
fn a_renamed_episode_yields_exactly_one_name_notice() {
    let stored = show_details(10, "Episode 3");
    let fresh = show_details(10, "The Reckoning");
    let notices = metadata_diff(&stored, &fresh, &Vec::new());
    assert_eq!(notices.len(), 1);
    assert_eq!(notices[0].kind, MediaStateChanged::MetadataEpisodeNameChanged);
    match &notices[0].detail {
        ChangeDetail::EpisodeName { season, episode, from, to } => {
            assert_eq!(*season, 1);
            assert_eq!(*episode, 3);
            assert_eq!(from, "Episode 3");
            assert_eq!(to, "The Reckoning");
        }
        other => panic!("unexpected detail {:?}", other),
    }
}

#[test]
fn a_changed_status_and_year_each_yield_a_notice() {
    let mut stored = empty_details("A Movie");
    stored.production_status = Some(String::from("In Production"));
    stored.publish_year = Some(2001);
    let mut fresh = empty_details("A Movie");
    fresh.production_status = Some(String::from("Released"));
    fresh.publish_year = Some(2002);
    let notices = metadata_diff(&stored, &fresh, &Vec::new());
    assert_eq!(notices.len(), 2);
    assert_eq!(notices[0].kind, MediaStateChanged::MetadataStatusChanged);
    assert_eq!(notices[1].kind, MediaStateChanged::MetadataReleaseDateChanged);
}

#[test]
fn identical_snapshots_yield_no_notice() {
    let stored = show_details(10, "Episode 3");
    let fresh = show_details(10, "Episode 3");
    assert!(metadata_diff(&stored, &fresh, &Vec::new()).is_empty());
}

#[test]
fn commit_person_is_idempotent() {
    let mut store = empty_store();
    let a = commit_person(
        &mut store,
        &String::from("p-1"),
        &String::from("tmdb"),
        &None,
        &String::from("Some Person"),
    );
    let b = commit_person(
        &mut store,
        &String::from("p-1"),
        &String::from("tmdb"),
        &None,
        &String::from("Some Person"),
    );
    assert_eq!(a, b);
    assert_eq!(store.people.len(), 1);
    assert!(store.people[0].is_partial);
}

#[test]
fn commit_genre_is_idempotent() {
    let mut store = empty_store();
    let a = commit_genre(&mut store, &String::from("Drama"));
    let b = commit_genre(&mut store, &String::from("Drama"));
    let c = commit_genre(&mut store, &String::from("Comedy"));
    assert_eq!(a, b);
    assert_ne!(a, c);
    assert_eq!(store.genres.len(), 2);
}

#[test]
fn metadata_lookup_finds_only_exact_keys() {
    let mut store = empty_store();
    let id = create_partial_metadata(
        &mut store,
        &PartialMetadataWithoutId {
            identifier: String::from("m-1"),
            lot: MediaLot::Movie,
            source: String::from("tmdb"),
            title: String::from("A Movie"),
        },
    );
    assert_eq!(
        commit_metadata_lookup(&store, MediaLot::Movie, &String::from("tmdb"), &String::from("m-1")),
        Some(id)
    );
    assert_eq!(
        commit_metadata_lookup(&store, MediaLot::Show, &String::from("tmdb"), &String::from("m-1")),
        None
    );
}

#[test]
fn the_association_rewrite_replaces_this_entitys_edges_only() {
    let mut store = empty_store();
    // a stale edge of this entity and an edge of another entity
    store.genre_edges.push(GenreEdge { metadata_id: 7, genre_id: 99 });
    store.genre_edges.push(GenreEdge { metadata_id: 8, genre_id: 99 });
    let jobs = change_metadata_associations(
        &mut store,
        7,
        MediaLot::Show,
        &String::from("tmdb"),
        &vec![String::from("Drama"), String::from("Comedy")],
        &vec![PartialMetadataWithoutId {
            identifier: String::from("sug-1"),
            lot: MediaLot::Show,
            source: String::from("tmdb"),
            title: String::from("A Suggestion"),
        }],
        &vec![String::from("group-1")],
        &vec![PartialMetadataPerson {
            identifier: String::from("p-1"),
            source: String::from("tmdb"),
            source_specifics: None,
            name: String::from("Someone"),
            role: String::from("Director"),
            character: None,
        }],
    );
    // the stale genre edge is gone, the foreign one survives
    assert_eq!(store.genre_edges.len(), 3);
    assert_eq!(store.genre_edges[0].metadata_id, 8);
    assert!(store.genre_edges[1..].iter().all(|e| e.metadata_id == 7));
    // people and suggestion targets were created
    assert_eq!(store.people.len(), 1);
    assert_eq!(store.person_edges.len(), 1);
    assert_eq!(store.person_edges[0].index, 0);
    assert_eq!(store.person_edges[0].role, "Director");
    assert_eq!(store.suggestion_edges.len(), 1);
    assert_eq!(store.metadata.len(), 1);
    assert!(store.metadata[0].is_partial);
    // groups become fire-and-forget jobs
    assert_eq!(jobs.len(), 1);
    assert_eq!(jobs[0].group_identifier, "group-1");
    assert_eq!(jobs[0].lot, MediaLot::Show);
}

#[test]
fn a_refresh_overwrites_the_snapshot_and_reports_the_diff() {
    let mut store = empty_store();
    store.metadata.push(MetadataRow {
        id: 7,
        lot: MediaLot::Show,
        source: String::from("tmdb"),
        identifier: String::from("m-7"),
        is_partial: true,
        last_updated_on: 0,
        details: show_details(10, "Episode 3"),
    });
    let (notices, jobs) = update_metadata(
        &mut store,
        7,
        Ok(show_details(11, "Episode 3")),
        &Vec::new(),
        5_000,
    );
    assert_eq!(notices.len(), 1);
    assert!(jobs.is_empty());
    let row = &store.metadata[0];
    assert!(!row.is_partial);
    assert_eq!(
        row.details.show_specifics.as_ref().unwrap().seasons[0].episodes.len(),
        11
    );
}

#[test]
fn a_failed_fetch_leaves_the_snapshot_untouched() {
    let mut store = empty_store();
    store.metadata.push(MetadataRow {
        id: 7,
        lot: MediaLot::Show,
        source: String::from("tmdb"),
        identifier: String::from("m-7"),
        is_partial: true,
        last_updated_on: 0,
        details: show_details(10, "Episode 3"),
    });
    let (notices, jobs) =
        update_metadata(&mut store, 7, Err(String::from("upstream broke")), &Vec::new(), 5_000);
    assert!(notices.is_empty());
    assert!(jobs.is_empty());
    let row = &store.metadata[0];
    assert!(!row.is_partial);
    assert_eq!(
        row.details.show_specifics.as_ref().unwrap().seasons[0].episodes.len(),
        10
    );
}

#[test]
fn committing_a_new_entity_inserts_its_snapshot_and_associations() {
    let mut store = empty_store();
    let mut details = empty_details("A Fresh Movie");
    details.genres.push(String::from("Drama"));
    details.group_identifiers.push(String::from("franchise-1"));
    assert_eq!(
        commit_metadata_lookup(&store, MediaLot::Movie, &String::from("tmdb"), &String::from("m-9")),
        None
    );
    let (id, jobs) = commit_metadata_create(
        &mut store,
        MediaLot::Movie,
        &String::from("tmdb"),
        &String::from("m-9"),
        details,
        5_000,
    );
    assert_eq!(
        commit_metadata_lookup(&store, MediaLot::Movie, &String::from("tmdb"), &String::from("m-9")),
        Some(id)
    );
    assert!(!store.metadata[0].is_partial);
    assert_eq!(store.genres.len(), 1);
    assert_eq!(store.genre_edges.len(), 1);
    assert_eq!(jobs.len(), 1);
    assert_eq!(jobs[0].group_identifier, "franchise-1");
}

#[test]
fn fan_out_targets_only_monitoring_users() {
    let rows = vec![
        MonitoredEntityRow { user_id: 1, entity_id: 7, entity_lot: EntityLot::Metadata },
        MonitoredEntityRow { user_id: 2, entity_id: 8, entity_lot: EntityLot::Metadata },
        MonitoredEntityRow { user_id: 3, entity_id: 7, entity_lot: EntityLot::Person },
        MonitoredEntityRow { user_id: 4, entity_id: 7, entity_lot: EntityLot::Metadata },
    ];
    let users = get_entities_monitored_by(&rows, 7, EntityLot::Metadata);
    assert_eq!(users, vec![1, 4]);
}

#[test]
fn preferences_filter_the_notices_per_recipient() {
    let stored = show_details(10, "Episode 3");
    let fresh = show_details(11, "The Reckoning");
    let notices = metadata_diff(&stored, &fresh, &Vec::new());
    assert_eq!(notices.len(), 1);
    let subscribed = NotificationPreferences {
        enabled: true,
        to_send: vec![MediaStateChanged::MetadataEpisodeReleased],
    };
    assert_eq!(filter_notices_for_user(&subscribed, &notices), vec![0]);
    let other_kind = NotificationPreferences {
        enabled: true,
        to_send: vec![MediaStateChanged::MetadataStatusChanged],
    };
    assert!(filter_notices_for_user(&other_kind, &notices).is_empty());
    let disabled = NotificationPreferences {
        enabled: false,
        to_send: vec![MediaStateChanged::MetadataEpisodeReleased],
    };
    assert!(filter_notices_for_user(&disabled, &notices).is_empty());
}

#[test]
fn podcast_episode_lists_diff_pairwise() {
    let podcast = |titles: Vec<&str>| {
        let mut d = empty_details("A Podcast");
        d.podcast_specifics = Some(media_tracker::types::PodcastSpecifics {
            episodes: titles
                .into_iter()
                .enumerate()
                .map(|(i, t)| media_tracker::types::PodcastEpisode {
                    number: i as i32 + 1,
                    title: String::from(t),
                    thumbnail: None,
                    runtime: Some(30),
                })
                .collect(),
        });
        d
    };
    let grown = metadata_diff(&podcast(vec!["a", "b"]), &podcast(vec!["a", "b", "c"]), &Vec::new());
    assert_eq!(grown.len(), 1);
    assert_eq!(grown[0].kind, MediaStateChanged::MetadataEpisodeReleased);
    let renamed = metadata_diff(&podcast(vec!["a", "b"]), &podcast(vec!["a", "x"]), &Vec::new());
    assert_eq!(renamed.len(), 1);
    assert_eq!(renamed[0].kind, MediaStateChanged::MetadataEpisodeNameChanged);
}
