//! Side effects of a saved session on the default collections: every save
//! leaves the watchlist; in-progress sessions are tracked and monitored;
//! completions move the entity to the completed collection once the
//! completeness predicate agrees.

use vstd::prelude::*;
use crate::types::{DefaultCollection, MediaLot, SeenState};

verus! {

/// Whether an entity is added to or removed from a collection.
#[derive(Clone, Copy, Debug, PartialEq, Eq, Structural)]
pub enum CollectionAction {
    Add,
    Remove,
}

/// One idempotent collection-membership write.
#[derive(Clone, Copy, Debug, PartialEq, Eq, Structural)]
pub struct CollectionOp {
    pub action: CollectionAction,
    pub collection: DefaultCollection,
}

/// Membership of one entity in the default collections, for one user.
#[derive(Clone, Copy, Debug, PartialEq, Eq, Structural, Default)]
pub struct CollectionMembership {
    pub watchlist: bool,
    pub in_progress: bool,
    pub completed: bool,
    pub monitoring: bool,
}

/// The collection writes a saved session triggers, in order. The
/// completeness verdict matters only for a completed session of an episodic
/// kind: an incomplete one stays tracked, a complete one graduates.
pub open spec fn spec_after_seen_ops(
    state: SeenState,
    lot: MediaLot,
    is_complete: bool,
) -> Seq<CollectionOp> {
    let lead = seq![
        CollectionOp { action: CollectionAction::Remove, collection: DefaultCollection::Watchlist },
    ];
    lead + (match state {
        SeenState::InProgress => seq![
            CollectionOp {
                action: CollectionAction::Add,
                collection: DefaultCollection::InProgress,
            },
            CollectionOp {
                action: CollectionAction::Add,
                collection: DefaultCollection::Monitoring,
            },
        ],
        SeenState::Dropped | SeenState::OnAHold => seq![
            CollectionOp {
                action: CollectionAction::Remove,
                collection: DefaultCollection::InProgress,
            },
        ],
        SeenState::Completed => {
            if lot.spec_is_episodic() {
                if is_complete {
                    seq![
                        CollectionOp {
                            action: CollectionAction::Remove,
                            collection: DefaultCollection::InProgress,
                        },
                        CollectionOp {
                            action: CollectionAction::Add,
                            collection: DefaultCollection::Completed,
                        },
                    ]
                } else {
                    seq![
                        CollectionOp {
                            action: CollectionAction::Add,
                            collection: DefaultCollection::InProgress,
                        },
                        CollectionOp {
                            action: CollectionAction::Add,
                            collection: DefaultCollection::Monitoring,
                        },
                    ]
                }
            } else {
                seq![
                    CollectionOp {
                        action: CollectionAction::Add,
                        collection: DefaultCollection::Completed,
                    },
                    CollectionOp {
                        action: CollectionAction::Remove,
                        collection: DefaultCollection::InProgress,
                    },
                    CollectionOp {
                        action: CollectionAction::Remove,
                        collection: DefaultCollection::Monitoring,
                    },
                ]
            }
        },
    })
}

/// Compute the collection writes for a saved session. `is_complete` is the
/// completeness predicate's verdict for the entity, read only for a
/// completed session of an episodic kind.
pub fn after_media_seen_tasks(state: SeenState, lot: MediaLot, is_complete: bool) -> (ops: Vec<
    CollectionOp,
>)
    ensures
        ops@ == spec_after_seen_ops(state, lot, is_complete),
{
    let mut ops: Vec<CollectionOp> = Vec::new();
    ops.push(
        CollectionOp { action: CollectionAction::Remove, collection: DefaultCollection::Watchlist },
    );
    match state {
        SeenState::InProgress => {
            ops.push(
                CollectionOp {
                    action: CollectionAction::Add,
                    collection: DefaultCollection::InProgress,
                },
            );
            ops.push(
                CollectionOp {
                    action: CollectionAction::Add,
                    collection: DefaultCollection::Monitoring,
                },
            );
        },
        SeenState::Dropped | SeenState::OnAHold => {
            ops.push(
                CollectionOp {
                    action: CollectionAction::Remove,
                    collection: DefaultCollection::InProgress,
                },
            );
        },
        SeenState::Completed => {
            if lot.is_episodic() {
                if is_complete {
                    ops.push(
                        CollectionOp {
                            action: CollectionAction::Remove,
                            collection: DefaultCollection::InProgress,
                        },
                    );
                    ops.push(
                        CollectionOp {
                            action: CollectionAction::Add,
                            collection: DefaultCollection::Completed,
                        },
                    );
                } else {
                    ops.push(
                        CollectionOp {
                            action: CollectionAction::Add,
                            collection: DefaultCollection::InProgress,
                        },
                    );
                    ops.push(
                        CollectionOp {
                            action: CollectionAction::Add,
                            collection: DefaultCollection::Monitoring,
                        },
                    );
                }
            } else {
                ops.push(
                    CollectionOp {
                        action: CollectionAction::Add,
                        collection: DefaultCollection::Completed,
                    },
                );
                ops.push(
                    CollectionOp {
                        action: CollectionAction::Remove,
                        collection: DefaultCollection::InProgress,
                    },
                );
                ops.push(
                    CollectionOp {
                        action: CollectionAction::Remove,
                        collection: DefaultCollection::Monitoring,
                    },
                );
            }
        },
    }
    proof {
        assert(ops@ =~= spec_after_seen_ops(state, lot, is_complete));
    }
    ops
}

/// Membership after one idempotent write.
pub open spec fn spec_apply_op(m: CollectionMembership, op: CollectionOp) -> CollectionMembership {
    let member = op.action == CollectionAction::Add;
    match op.collection {
        DefaultCollection::Watchlist => CollectionMembership { watchlist: member, ..m },
        DefaultCollection::InProgress => CollectionMembership { in_progress: member, ..m },
        DefaultCollection::Completed => CollectionMembership { completed: member, ..m },
        DefaultCollection::Monitoring => CollectionMembership { monitoring: member, ..m },
        DefaultCollection::Custom => m,
    }
}

/// Membership after a list of writes, applied in order.
pub open spec fn spec_apply_ops(m: CollectionMembership, ops: Seq<CollectionOp>) -> CollectionMembership
    decreases ops.len(),
{
    if ops.len() == 0 {
        m
    } else {
        spec_apply_op(spec_apply_ops(m, ops.drop_last()), ops.last())
    }
}

/// Apply collection writes to a membership record. Adding an entity that is
/// already a member, or removing one that is not, changes nothing.
pub fn apply_collection_ops(m: &mut CollectionMembership, ops: &Vec<CollectionOp>)
    ensures
        *final(m) == spec_apply_ops(*old(m), ops@),
{
    let mut i: usize = 0;
    proof {
        assert(ops@.take(0) =~= Seq::<CollectionOp>::empty());
    }
    while i < ops.len()
        invariant
            0 <= i <= ops@.len(),
            *m == spec_apply_ops(*old(m), ops@.take(i as int)),
        decreases ops@.len() - i,
    {
        proof {
            assert(ops@.take(i + 1).drop_last() =~= ops@.take(i as int));
            assert(ops@.take(i + 1).last() == ops@[i as int]);
        }
        let op = ops[i];
        let member = matches!(op.action, CollectionAction::Add);
        match op.collection {
            DefaultCollection::Watchlist => {
                m.watchlist = member;
            },
            DefaultCollection::InProgress => {
                m.in_progress = member;
            },
            DefaultCollection::Completed => {
                m.completed = member;
            },
            DefaultCollection::Monitoring => {
                m.monitoring = member;
            },
            DefaultCollection::Custom => {},
        }
        i += 1;
    }
    proof {
        assert(ops@.take(ops@.len() as int) =~= ops@);
    }
}

} // verus!
