//! Workout set records and the pick of a workout's best set.

use vstd::prelude::*;
use crate::FixedValue;

verus! {

/// The kind of one exercise set.
#[derive(Clone, Copy, Debug, PartialEq, Eq, Structural)]
pub enum SetLot {
    Normal,
    WarmUp,
    Drop,
    Failure,
}

/// The personal bests one set may hold.
#[derive(Clone, Copy, Debug, PartialEq, Eq, Structural)]
pub enum WorkoutSetPersonalBest {
    Weight,
    OneRm,
    Volume,
}

/// The measured numbers of one set.
#[derive(Clone, Copy, Debug, PartialEq, Eq, Structural)]
pub struct SetStatistic {
    pub duration: Option<FixedValue>,
    pub distance: Option<FixedValue>,
    pub reps: Option<FixedValue>,
    pub weight: Option<FixedValue>,
}

/// One recorded exercise set.
#[derive(Clone, Debug)]
pub struct WorkoutSetRecord {
    pub statistic: SetStatistic,
    pub lot: SetLot,
    pub personal_bests: Vec<WorkoutSetPersonalBest>,
}

/// The score a set is ranked by: the sum of its numbers, a missing number
/// counting as zero.
pub open spec fn spec_set_score(s: SetStatistic) -> int {
    (match s.duration {
        Option::Some(v) => v.hundredths as int,
        Option::None => 0,
    }) + (match s.distance {
        Option::Some(v) => v.hundredths as int,
        Option::None => 0,
    }) + (match s.reps {
        Option::Some(v) => v.hundredths as int,
        Option::None => 0,
    }) + (match s.weight {
        Option::Some(v) => v.hundredths as int,
        Option::None => 0,
    })
}

/// Every number of the set is in a range the score arithmetic tolerates.
pub open spec fn set_stat_bounded(s: SetStatistic) -> bool {
    &&& (s.duration is Some ==> -1000000000000 <= s.duration.unwrap().hundredths
        <= 1000000000000)
    &&& (s.distance is Some ==> -1000000000000 <= s.distance.unwrap().hundredths
        <= 1000000000000)
    &&& (s.reps is Some ==> -1000000000000 <= s.reps.unwrap().hundredths <= 1000000000000)
    &&& (s.weight is Some ==> -1000000000000 <= s.weight.unwrap().hundredths <= 1000000000000)
}

fn set_score(s: &SetStatistic) -> (r: i64)
    requires
        set_stat_bounded(*s),
    ensures
        r == spec_set_score(*s),
{
    let mut r: i64 = 0;
    if let Some(v) = s.duration {
        r = r + v.hundredths;
    }
    if let Some(v) = s.distance {
        r = r + v.hundredths;
    }
    if let Some(v) = s.reps {
        r = r + v.hundredths;
    }
    if let Some(v) = s.weight {
        r = r + v.hundredths;
    }
    r
}

/// Pick the best set of a workout: the last set attaining the highest
/// score, or nothing for an empty list.
pub fn get_best_set(records: &Vec<WorkoutSetRecord>) -> (r: Option<usize>)
    requires
        forall|i: int| 0 <= i < records@.len() ==> set_stat_bounded((#[trigger] records@[i]).statistic),
    ensures
        r is Some <==> records@.len() > 0,
        r is Some ==> {
            let i = r.unwrap() as int;
            &&& 0 <= i < records@.len()
            &&& forall|j: int|
                0 <= j < records@.len() ==> spec_set_score((#[trigger] records@[j]).statistic)
                    <= spec_set_score(records@[i].statistic)
            &&& forall|j: int|
                i < j < records@.len() ==> spec_set_score((#[trigger] records@[j]).statistic)
                    < spec_set_score(records@[i].statistic)
        },
{
    if records.len() == 0 {
        return None;
    }
    let mut best: usize = 0;
    let mut best_score: i64 = set_score(&records[0].statistic);
    let mut i: usize = 1;
    while i < records.len()
        invariant
            0 <= best < i <= records@.len(),
            records@.len() > 0,
            forall|j: int|
                0 <= j < records@.len() ==> set_stat_bounded((#[trigger] records@[j]).statistic),
            best_score == spec_set_score(records@[best as int].statistic),
            forall|j: int|
                0 <= j < i ==> spec_set_score((#[trigger] records@[j]).statistic) <= best_score,
            forall|j: int|
                best < j < i ==> spec_set_score((#[trigger] records@[j]).statistic) < best_score,
        decreases records@.len() - i,
    {
        let score = set_score(&records[i].statistic);
        if score >= best_score {
            best = i;
            best_score = score;
        }
        i += 1;
    }
    Some(best)
}

/// The overall score a set is ranked by, written out for callers.
pub fn workout_set_score(record: &WorkoutSetRecord) -> (r: i64)
    requires
        set_stat_bounded(record.statistic),
    ensures
        r == spec_set_score(record.statistic),
{
    set_score(&record.statistic)
}

} // verus!
