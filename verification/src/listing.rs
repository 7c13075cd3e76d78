//! Consumption status queries and the plain search-result shapes the
//! transport layer fills and returns.

use vstd::prelude::*;
use crate::PROGRESS_FULL;
use crate::types::{BookSpecifics, MediaLot, MovieSpecifics, SeenRecord};

verus! {

/// How far a user has come with one media entity.
#[derive(Clone, Copy, Debug, PartialEq, Eq, Structural)]
pub enum SeenStatus {
    NotInDatabase,
    NotConsumed,
    CurrentlyUnderway,
    ConsumedAtleastOnce,
}

/// The consumed-before answer for one entity.
#[derive(Clone, Debug)]
pub struct MediaSeen {
    pub identifier: String,
    pub seen: SeenStatus,
}

/// What a consumed-before query asks about.
#[derive(Clone, Debug)]
pub struct MediaConsumedInput {
    pub identifier: String,
    pub lot: MediaLot,
}

/// One search result row.
#[derive(Clone, Debug)]
pub struct MediaSearchItem {
    pub identifier: String,
    pub title: String,
    pub description: Option<String>,
    pub author_names: Vec<String>,
    pub poster_images: Vec<String>,
    pub backdrop_images: Vec<String>,
    pub publish_year: Option<i32>,
    pub book_specifics: Option<BookSpecifics>,
    pub movie_specifics: Option<MovieSpecifics>,
}

/// One page of search results.
#[derive(Clone, Debug)]
pub struct MediaSearchResults {
    pub total: i32,
    pub items: Vec<MediaSearchItem>,
}

/// What a media listing asks for.
#[derive(Clone, Copy, Debug, PartialEq, Eq, Structural)]
pub struct MediaListInput {
    pub page: i32,
    pub lot: MediaLot,
}

/// The credentials an import deployment hands to the external tracker.
#[derive(Clone, Debug)]
pub struct DeployMediaTrackerImportInput {
    pub api_url: String,
    pub api_key: String,
}

/// The consumption status a history implies: nothing yet, a session still
/// underway (the most recent record is below full progress), or consumed
/// at least once.
pub open spec fn spec_consumed_status(history: Seq<SeenRecord>) -> SeenStatus {
    if history.len() == 0 {
        SeenStatus::NotConsumed
    } else if history.last().progress.hundredths < PROGRESS_FULL {
        SeenStatus::CurrentlyUnderway
    } else {
        SeenStatus::ConsumedAtleastOnce
    }
}

/// Derive the consumption status of one entity's history, ordered oldest
/// first; an entity missing from the store altogether is reported as such.
pub fn media_consumed(identifier: String, history: Option<&Vec<SeenRecord>>) -> (r: MediaSeen)
    ensures
        r.identifier@ == identifier@,
        r.seen == (match history {
            Option::None => SeenStatus::NotInDatabase,
            Option::Some(h) => spec_consumed_status(h@),
        }),
{
    let seen = match history {
        None => SeenStatus::NotInDatabase,
        Some(h) => {
            if h.len() == 0 {
                SeenStatus::NotConsumed
            } else if h[h.len() - 1].progress.hundredths < PROGRESS_FULL {
                SeenStatus::CurrentlyUnderway
            } else {
                SeenStatus::ConsumedAtleastOnce
            }
        },
    };
    MediaSeen { identifier, seen }
}

/// The first row index of one 1-based page of a listing.
pub open spec fn spec_page_start(total: int, page: int, size: int) -> int {
    if (page - 1) * size > total {
        total
    } else {
        (page - 1) * size
    }
}

/// One past the last row index of one 1-based page of a listing.
pub open spec fn spec_page_end(total: int, page: int, size: int) -> int {
    if page * size > total {
        total
    } else {
        page * size
    }
}

/// The row bounds of one 1-based page of a listing of `total` rows.
pub fn page_bounds(total: usize, page: usize, size: usize) -> (r: (usize, usize))
    requires
        page >= 1,
        size >= 1,
    ensures
        r.0 == spec_page_start(total as int, page as int, size as int),
        r.1 == spec_page_end(total as int, page as int, size as int),
        r.0 <= r.1 <= total,
{
    let pm1 = page - 1;
    let start: usize = if pm1 <= total / size {
        proof {
            assert((pm1 as int) * (size as int) <= ((total as int) / (size as int)) * (
            size as int)) by (nonlinear_arith)
                requires
                    pm1 <= total / size,
                    size >= 1,
            ;
            assert(((total as int) / (size as int)) * (size as int) <= total as int)
                by (nonlinear_arith)
                requires
                    size >= 1,
                    total >= 0,
            ;
        }
        pm1 * size
    } else {
        proof {
            assert((pm1 as int) * (size as int) > total as int) by (nonlinear_arith)
                requires
                    pm1 > total / size,
                    size >= 1,
                    total >= 0,
            ;
        }
        total
    };
    let end: usize = if size <= total - start {
        let e = start + size;
        proof {
            assert((page as int) * (size as int) == (pm1 as int) * (size as int) + size as int)
                by (nonlinear_arith)
                requires
                    page as int == pm1 as int + 1,
            ;
        }
        if e > total {
            total
        } else {
            e
        }
    } else {
        proof {
            assert((page as int) * (size as int) == (pm1 as int) * (size as int) + size as int)
                by (nonlinear_arith)
                requires
                    page as int == pm1 as int + 1,
            ;
        }
        total
    };
    (start, end)
}

} // verus!
