use media_tracker::import::{
    convert_review_into_input, process_import, sort_seen_history, EntityLot, ImportCompletedItem,
    ImportFailStep, ImportMediaItem, ImportOrExportItemRating, ImportResult, ImportSeenItem,
    UserReviewScale,
};
use media_tracker::types::{MediaLot, SeenState};
use media_tracker::FixedValue;

fn seen_item(progress: Option<i64>, ended_on: Option<i64>) -> ImportSeenItem {
    ImportSeenItem {
        progress: progress.map(|p| FixedValue { hundredths: p * 100 }),
        ended_on,
        show_season_number: None,
        show_episode_number: None,
        podcast_episode_number: None,
        anime_episode_number: None,
        manga_chapter_number: None,
        manga_volume_number: None,
        provider_watched_on: None,
    }
}

fn media_item(n: usize) -> ImportMediaItem {
    ImportMediaItem {
        source_id: format!("item-{}", n),
        identifier: format!("ident-{}", n),
        lot: MediaLot::Movie,
        seen_history: vec![seen_item(None, Some(100))],
        reviews: Vec::new(),
        collections: Vec::new(),
    }
}

fn batch(n: usize) -> ImportResult {
    ImportResult {
        collections: Vec::new(),
        media: (0..n).map(media_item).collect(),
        workouts: Vec::new(),
        measurements: Vec::new(),
        failed_items: Vec::new(),
    }
}

#[test]
fn one_failed_lookup_fails_one_item_and_the_batch_continues() {
    let import = batch(10);
    let commits: Vec<Result<u64, String>> = (0..10)
        .map(|k| {
            if k == 4 {
                Err(String::from("provider lookup failed"))
            } else {
                Ok(100 + k as u64)
            }
        })
        .collect();
    let histories: Vec<_> = (0..10).map(|_| Vec::new()).collect();
    let r = process_import(import, &commits, histories, UserReviewScale::OutOfHundred, 200, 5, 200);
    assert_eq!(r.response.import.total, 10);
    assert_eq!(r.response.completed.len(), 9);
    assert!(r
        .response
        .completed
        .iter()
        .all(|c| matches!(c, ImportCompletedItem::Metadata(_))));
    assert_eq!(r.response.failed_items.len(), 1);
    let failed = &r.response.failed_items[0];
    assert_eq!(failed.step, ImportFailStep::MediaDetailsFromProvider);
    assert_eq!(failed.identifier, "item-4");
    assert_eq!(failed.lot, Some(MediaLot::Movie));
    assert_eq!(failed.error.as_deref(), Some("provider lookup failed"));
    // every successful item replayed its history
    assert_eq!(r.histories.len(), 10);
    assert_eq!(r.histories[0].len(), 1);
    assert_eq!(r.histories[0][0].state, SeenState::Completed);
    assert!(r.histories[4].is_empty());
}

#[test]
fn seen_histories_replay_in_end_date_order() {
    let v = vec![
        seen_item(Some(100), Some(300)),
        seen_item(Some(40), None),
        seen_item(Some(80), Some(120)),
    ];
    let sorted = sort_seen_history(v);
    assert_eq!(sorted[0].ended_on, None);
    assert_eq!(sorted[1].ended_on, Some(120));
    assert_eq!(sorted[2].ended_on, Some(300));
}

#[test]
fn a_show_item_without_coordinates_fails_seen_conversion() {
    let mut import = batch(1);
    import.media[0].lot = MediaLot::Show;
    let commits = vec![Ok(7u64)];
    let r = process_import(
        import,
        &commits,
        vec![Vec::new()],
        UserReviewScale::OutOfHundred,
        200,
        5,
        200,
    );
    assert_eq!(r.response.completed.len(), 1);
    assert_eq!(r.response.failed_items.len(), 1);
    assert_eq!(r.response.failed_items[0].step, ImportFailStep::SeenHistoryConversion);
}

#[test]
fn collections_workouts_and_measurements_count_toward_the_total() {
    let mut import = batch(0);
    import.collections.push(String::from("Favourites"));
    let r = process_import(
        import,
        &Vec::new(),
        Vec::new(),
        UserReviewScale::OutOfHundred,
        200,
        5,
        200,
    );
    assert_eq!(r.response.import.total, 1);
    assert_eq!(r.response.completed.len(), 1);
    assert!(matches!(
        &r.response.completed[0],
        ImportCompletedItem::Collection(name) if name == "Favourites"
    ));
}

#[test]
fn a_contentless_review_is_skipped() {
    let review = ImportOrExportItemRating {
        rating: None,
        text: None,
        spoiler: None,
        date: None,
        visibility: None,
        show_season_number: None,
        show_episode_number: None,
        podcast_episode_number: None,
        manga_chapter_number: None,
    };
    assert!(convert_review_into_input(&review, UserReviewScale::OutOfHundred, 1, EntityLot::Metadata)
        .is_none());
}

#[test]
fn a_five_star_rating_is_rescaled() {
    let review = ImportOrExportItemRating {
        rating: Some(FixedValue { hundredths: 8_000 }),
        text: None,
        spoiler: None,
        date: None,
        visibility: None,
        show_season_number: None,
        show_episode_number: None,
        podcast_episode_number: None,
        manga_chapter_number: None,
    };
    let p = convert_review_into_input(&review, UserReviewScale::OutOfFive, 9, EntityLot::Metadata)
        .unwrap();
    // a rating of 80 becomes 4 stars
    assert_eq!(p.rating, Some(FixedValue { hundredths: 400 }));
    assert_eq!(p.entity_id, 9);
    assert_eq!(p.is_spoiler, None);
    let kept = convert_review_into_input(&review, UserReviewScale::OutOfHundred, 9, EntityLot::Metadata)
        .unwrap();
    assert_eq!(kept.rating, Some(FixedValue { hundredths: 8_000 }));
}

#[test]
fn converted_reviews_are_collected_for_posting() {
    let mut import = batch(1);
    import.media[0].reviews.push(ImportOrExportItemRating {
        rating: Some(FixedValue { hundredths: 9_000 }),
        text: Some(String::from("great")),
        spoiler: Some(true),
        date: Some(150),
        visibility: None,
        show_season_number: None,
        show_episode_number: None,
        podcast_episode_number: None,
        manga_chapter_number: None,
    });
    let commits = vec![Ok(7u64)];
    let r = process_import(
        import,
        &commits,
        vec![Vec::new()],
        UserReviewScale::OutOfHundred,
        200,
        5,
        200,
    );
    assert_eq!(r.reviews_to_post.len(), 1);
    assert_eq!(r.reviews_to_post[0].entity_id, 7);
    assert_eq!(r.reviews_to_post[0].is_spoiler, Some(true));
    assert_eq!(r.reviews_to_post[0].text.as_deref(), Some("great"));
}
