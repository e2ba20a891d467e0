//! The steps of a sweep: purging the cache, deleting the rows that await
//! deletion, and writing the sessions that are due.

use vstd::prelude::*;
use crate::cache::SessionCache;
use crate::data::{DataModel, SessionData};
use crate::id::{ids_of, lemma_ids_of_push, SessionID};
use crate::model::{same_row, settled, without_ids, StoreModel};
use crate::pool::{purged_rows, DatabasePool, PoolError, RowModel};

verus! {

/// Removes from `left` the sessions that a sweep at `now` purges, and counts
/// them. This is the whole sweep of a store without a backing store.
pub fn purge_cache(left: SessionCache, now: i64) -> (result: (SessionCache, usize))
    ensures
        result.0@ == Map::new(
            |id: u128| left@.contains_key(id) && !left@[id].purgeable(now),
            |id: u128| left@[id],
        ),
        left@.dom().finite(),
        result.0@.dom().finite(),
        result.1 + result.0@.dom().len() == left@.dom().len(),
{
    let ghost all = left@;
    let total = left.len();
    let mut left = left;
    let mut kept = SessionCache::new();
    let mut purged: usize = 0;
    loop
        invariant
            left@.dom().finite(),
            kept@.dom().finite(),
            total == purged + kept@.dom().len() + left@.dom().len(),
            forall|id: u128| #[trigger]
                left@.contains_key(id) ==> all.contains_key(id) && left@[id] == all[id],
            forall|id: u128| #[trigger]
                kept@.contains_key(id) <==> all.contains_key(id) && !left@.contains_key(id)
                    && !all[id].purgeable(now),
            forall|id: u128| #[trigger] kept@.contains_key(id) ==> kept@[id] == all[id],
        ensures
            left@ == Map::<u128, DataModel>::empty(),
        decreases left@.dom().len(),
    {
        match left.pop() {
            None => {
                break;
            },
            Some((id, data)) => {
                if data.is_purgeable(now) {
                    purged += 1;
                } else {
                    let _ = kept.insert(id, data);
                }
            },
        }
    }
    (kept, purged)
}

/// Deletes the rows of `table` under the identifiers of `queue`, and says
/// whether every deletion succeeded. Where all did, the rows of the queue are
/// gone and the others are as they were. An empty queue asks nothing of the
/// backing store, so that it is always drained and the rows stay as they are.
pub fn drain_queue<P: DatabasePool>(pool: &mut P, queue: &Vec<u128>, table: &str) -> (complete:
    bool)
    ensures
        complete ==> final(pool).rows() == without_ids(
            old(pool).rows(),
            table@,
            queue@.to_set(),
        ),
        queue@.len() == 0 ==> complete && final(pool).rows() == old(pool).rows(),
{
    let mut complete = true;
    let mut i: usize = 0;
    while i < queue.len()
        invariant
            i <= queue@.len(),
            queue@.len() == 0 ==> complete && pool.rows() == old(pool).rows(),
            complete ==> pool.rows() == without_ids(
                old(pool).rows(),
                table@,
                queue@.take(i as int).to_set(),
            ),
        decreases queue@.len() - i,
    {
        let id = queue[i];
        match pool.delete(SessionID::from_u128(id), table) {
            Ok(()) => {
                proof {
                    assert(queue@.take(i + 1) =~= queue@.take(i as int).push(id));
                    queue@.take(i as int).lemma_push_to_set_commute(id);
                }
            },
            Err(_) => {
                complete = false;
            },
        }
        i += 1;
    }
    proof {
        assert(queue@.take(queue@.len() as int) =~= queue@);
    }
    complete
}

/// What [`settle_sessions`] hands back.
pub struct Settlement {
    /// The sessions that stay in memory.
    pub kept: SessionCache,
    /// The number of sessions that were purged.
    pub purged: usize,
    /// Whether every call into the backing store succeeded.
    pub complete: bool,
    /// The identifiers of the sessions whose write failed.
    pub unsaved: Vec<SessionID>,
    /// The identifiers of the sessions that were written.
    pub saved: Vec<SessionID>,
}

/// Whether `id` stands in `list`.
pub fn holds(list: &Vec<SessionID>, id: u128) -> (found: bool)
    ensures
        found == ids_of(list@).contains(id),
{
    let mut i: usize = 0;
    while i < list.len()
        invariant
            i <= list@.len(),
            forall|j: int| 0 <= j < i ==> list@[j] != SessionID(id),
        decreases list@.len() - i,
    {
        if list[i].as_u128() == id {
            return true;
        }
        i += 1;
    }
    false
}

/// The identifiers of `queue` that do not stand in `saved`: the rows that
/// still await deletion when the sessions of `saved` were written after the
/// deletions were tried, so that their rows are to stay.
pub fn without_saved(queue: &Vec<u128>, saved: &Vec<SessionID>) -> (rest: Vec<u128>)
    ensures
        rest@.to_set() == queue@.to_set().difference(ids_of(saved@)),
{
    let mut rest: Vec<u128> = Vec::new();
    let mut i: usize = 0;
    while i < queue.len()
        invariant
            i <= queue@.len(),
            rest@.to_set() == queue@.take(i as int).to_set().difference(ids_of(saved@)),
        decreases queue@.len() - i,
    {
        let id = queue[i];
        proof {
            assert(queue@.take(i + 1) =~= queue@.take(i as int).push(id));
            queue@.take(i as int).lemma_push_to_set_commute(id);
        }
        if !holds(saved, id) {
            proof {
                rest@.lemma_push_to_set_commute(id);
            }
            rest.push(id);
        }
        i += 1;
    }
    proof {
        assert(queue@.take(queue@.len() as int) =~= queue@);
    }
    rest
}

/// The session after the backing store answered its write: saved where the
/// write succeeded, as it was where the write failed, so that it stays due.
pub fn after_write(data: SessionData, outcome: &Result<(), PoolError>) -> (kept: SessionData)
    ensures
        kept@ == if outcome is Ok {
            data@.saved()
        } else {
            data@
        },
{
    let mut data = data;
    if outcome.is_ok() {
        data.mark_saved();
    }
    data
}

/// Deals with every session of `left` at `now`: a session that is purged
/// leaves memory and has its row deleted; a session that is due is written and
/// counts as saved where the write succeeded, and stays due where it failed;
/// every other session stays as it is. The identifier of every session that
/// is purged is added to `gone`.
pub fn settle_sessions<P: DatabasePool>(
    pool: &mut P,
    left: SessionCache,
    gone: &mut Vec<u128>,
    table: &str,
    now: i64,
) -> (done: Settlement)
    ensures
        left@.dom().finite(),
        done.kept@.dom().finite(),
        done.purged + done.kept@.dom().len() == left@.dom().len(),
        forall|id: u128| #[trigger]
            done.kept@.contains_key(id) <==> left@.contains_key(id) && !left@[id].purgeable(now),
        forall|id: u128| #[trigger]
            ids_of(done.unsaved@).contains(id) ==> left@.contains_key(id) && left@[id].due_for_save(
                now,
            ),
        forall|id: u128| #[trigger]
            done.kept@.contains_key(id) ==> done.kept@[id] == if left@[id].due_for_save(now)
                && !ids_of(done.unsaved@).contains(id) {
                left@[id].saved()
            } else {
                left@[id]
            },
        done.complete ==> done.unsaved@.len() == 0,
        forall|id: u128| #[trigger]
            ids_of(done.saved@).contains(id) <==> left@.contains_key(id) && left@[id].due_for_save(
                now,
            ) && !ids_of(done.unsaved@).contains(id),
        final(gone)@.to_set() == old(gone)@.to_set().union(
            Set::new(|id: u128| left@.contains_key(id) && left@[id].purgeable(now)),
        ),
        done.complete ==> settled(
            old(pool).rows(),
            left@,
            Map::empty(),
            table@,
            now,
            final(pool).rows(),
        ),
{
    let ghost all = left@;
    let ghost first = pool.rows();
    let total = left.len();
    let mut left = left;
    let mut kept = SessionCache::new();
    let mut purged: usize = 0;
    let mut complete = true;
    let mut unsaved: Vec<SessionID> = Vec::new();
    let mut saved: Vec<SessionID> = Vec::new();
    loop
        invariant
            left@.dom().finite(),
            kept@.dom().finite(),
            total == purged + kept@.dom().len() + left@.dom().len(),
            forall|id: u128| #[trigger]
                left@.contains_key(id) ==> all.contains_key(id) && left@[id] == all[id],
            forall|id: u128| #[trigger]
                kept@.contains_key(id) <==> all.contains_key(id) && !left@.contains_key(id)
                    && !all[id].purgeable(now),
            forall|id: u128| #[trigger]
                ids_of(unsaved@).contains(id) ==> all.contains_key(id) && !left@.contains_key(id)
                    && all[id].due_for_save(now),
            forall|id: u128| #[trigger]
                kept@.contains_key(id) ==> kept@[id] == if all[id].due_for_save(now) && !ids_of(
                    unsaved@,
                ).contains(id) {
                    all[id].saved()
                } else {
                    all[id]
                },
            complete ==> unsaved@.len() == 0,
            forall|id: u128| #[trigger]
                ids_of(saved@).contains(id) <==> all.contains_key(id) && !left@.contains_key(id)
                    && all[id].due_for_save(now) && !ids_of(unsaved@).contains(id),
            gone@.to_set() == old(gone)@.to_set().union(
                Set::new(
                    |id: u128|
                        all.contains_key(id) && !left@.contains_key(id) && all[id].purgeable(now),
                ),
            ),
            complete ==> settled(first, all, left@, table@, now, pool.rows()),
        ensures
            left@ == Map::<u128, DataModel>::empty(),
        decreases left@.dom().len(),
    {
        let ghost earlier = gone@;
        match left.pop() {
            None => {
                break;
            },
            Some((id, data)) => {
                if data.is_purgeable(now) {
                    purged += 1;
                    gone.push(id);
                    proof {
                        earlier.lemma_push_to_set_commute(id);
                    }
                    match pool.delete(SessionID::from_u128(id), table) {
                        Ok(()) => {},
                        Err(_) => {
                            complete = false;
                        },
                    }
                } else if data.is_due_for_save(now) {
                    let bytes = data.encode();
                    let outcome = pool.save(
                        SessionID::from_u128(id),
                        bytes,
                        data.expiry(),
                        table,
                    );
                    if outcome.is_err() {
                        complete = false;
                        proof {
                            lemma_ids_of_push(unsaved@, SessionID(id));
                        }
                        unsaved.push(SessionID::from_u128(id));
                    } else {
                        proof {
                            lemma_ids_of_push(saved@, SessionID(id));
                        }
                        saved.push(SessionID::from_u128(id));
                    }
                    let _ = kept.insert(id, after_write(data, &outcome));
                } else {
                    let _ = kept.insert(id, data);
                }
            },
        }
    }
    Settlement { kept, purged, complete, unsaved, saved }
}

/// The rows after the three steps of a complete sweep are reconciled: first
/// the rows that awaited deletion are deleted, then the sessions are dealt
/// with, then the expired rows are purged.
pub proof fn lemma_sweep_reconciles(
    pre: StoreModel,
    drained: Map<(Seq<char>, u128), RowModel>,
    dealt: Map<(Seq<char>, u128), RowModel>,
    rows: Map<(Seq<char>, u128), RowModel>,
    now: i64,
)
    requires
        pre.persistent,
        drained == without_ids(pre.rows, pre.table, pre.doomed),
        settled(drained, pre.cache, Map::empty(), pre.table, now, dealt),
        rows == purged_rows(dealt, pre.table, now),
    ensures
        pre.reconciled(rows, now),
{
    assert forall|key: (Seq<char>, u128)|
        #![trigger rows.contains_key(key)]
        #![trigger pre.rows.contains_key(key)]
        if key.0 != pre.table {
            same_row(rows, pre.rows, key)
        } else if pre.writes(key.1, now) {
            rows.contains_key(key) && StoreModel::row_matches(rows[key], pre.cache[key.1])
        } else if pre.deletes(key.1, now) {
            !rows.contains_key(key)
        } else {
            rows.contains_key(key) == (pre.rows.contains_key(key) && !(pre.rows[key].expiry < now))
                && (rows.contains_key(key) ==> rows[key] == pre.rows[key])
        } by {
        assert(dealt.contains_key(key) || !dealt.contains_key(key));
        assert(drained.contains_key(key) || !drained.contains_key(key));
    }
}

} // verus!
