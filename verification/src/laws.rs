//! What holds of the operations of the store taken together.
//!
//! Each law speaks of stores as mathematical values and of the predicates in
//! which the operations state what they do: `set_gives` for `set`,
//! `touch_gives` for `get` and for the loading of a session, `swept` for a
//! sweep, and so on.

use vstd::prelude::*;
use crate::data::{deadline, DataModel};
use crate::model::StoreModel;
use crate::pool::table_ids;

verus! {

/// Whether the identifiers `ids` were handed out in turn: each was free in the
/// store of its turn, and the next store is the one in which its session has
/// entered memory at the instant of its turn.
pub open spec fn issued_in_turn(
    stores: Seq<StoreModel>,
    ids: Seq<u128>,
    instants: Seq<i64>,
) -> bool {
    &&& stores.len() == ids.len() + 1
    &&& instants.len() == ids.len()
    &&& forall|i: int|
        0 <= i < ids.len() ==> (#[trigger] stores[i]).is_free(ids[i]) && stores[i].touch_gives(
            stores[i + 1],
            ids[i],
            instants[i],
        )
}

/// While identifiers are handed out in turn, the sessions in memory only
/// become more, and the backing store stays as it is.
pub proof fn lemma_issued_grows(
    stores: Seq<StoreModel>,
    ids: Seq<u128>,
    instants: Seq<i64>,
    from: int,
    to: int,
)
    requires
        issued_in_turn(stores, ids, instants),
        0 <= from <= to <= ids.len(),
    ensures
        stores[to].persistent == stores[from].persistent,
        stores[to].rows == stores[from].rows,
        stores[to].table == stores[from].table,
        forall|id: u128| stores[from].cache.contains_key(id) ==> stores[to].cache.contains_key(id),
        forall|i: int| from <= i < to ==> stores[to].cache.contains_key(#[trigger] ids[i]),
    decreases to - from,
{
    if from < to {
        lemma_issued_grows(stores, ids, instants, from, to - 1);
    }
}

/// Identifiers that are handed out in turn, each entering memory before the
/// next is generated, are pairwise distinct, and none of them is an
/// identifier that the cache or the backing store held at the start.
pub proof fn law_issued_ids_are_unique(
    stores: Seq<StoreModel>,
    ids: Seq<u128>,
    instants: Seq<i64>,
)
    requires
        issued_in_turn(stores, ids, instants),
    ensures
        forall|i: int, j: int| 0 <= i < j < ids.len() ==> ids[i] != ids[j],
        forall|i: int| 0 <= i < ids.len() ==> stores[0].is_free(#[trigger] ids[i]),
{
    assert forall|i: int, j: int| 0 <= i < j < ids.len() implies ids[i] != ids[j] by {
        lemma_issued_grows(stores, ids, instants, i, j);
    }
    assert forall|i: int| 0 <= i < ids.len() implies stores[0].is_free(#[trigger] ids[i]) by {
        lemma_issued_grows(stores, ids, instants, 0, i);
    }
}

/// An identifier under which nothing stands, in memory or in the backing
/// store, gives a new and empty session at its first access.
pub proof fn law_unknown_id_is_empty(
    store: StoreModel,
    seen: StoreModel,
    id: u128,
    key: Seq<char>,
    now: i64,
)
    requires
        !store.cache.contains_key(id),
        store.stored_row(id).is_none(),
        store.touch_gives(seen, id, now),
    ensures
        seen.cache[id] == DataModel::fresh(deadline(now, store.default_lifespan), now),
        seen.cache[id].lookup(key).is_none(),
{
}

/// A value that was stored under a key is the value that a later read of the
/// key finds.
pub proof fn law_set_then_get(
    store: StoreModel,
    stored: StoreModel,
    seen: StoreModel,
    id: u128,
    key: Seq<char>,
    value: Seq<char>,
    written: i64,
    read: i64,
)
    requires
        store.set_gives(stored, id, key, value, written),
        stored.touch_gives(seen, id, read),
    ensures
        seen.cache.contains_key(id),
        seen.cache[id].lookup(key) == Some(value),
{
}

/// A value that was stored under a key is not touched by storing or deleting
/// under another key.
pub proof fn law_other_keys_are_kept(
    store: StoreModel,
    stored: StoreModel,
    after: StoreModel,
    id: u128,
    key: Seq<char>,
    value: Seq<char>,
    other: Seq<char>,
    other_value: Seq<char>,
    now: i64,
    later: i64,
)
    requires
        key != other,
        store.set_gives(stored, id, key, value, now),
        stored.set_gives(after, id, other, other_value, later) || stored.remove_gives(
            after,
            id,
            other,
            later,
        ),
    ensures
        after.cache[id].lookup(key) == Some(value),
{
}

/// Taking a key hands out the value that was stored under it, and a later
/// read of the key finds nothing.
pub proof fn law_take_then_absent(
    store: StoreModel,
    stored: StoreModel,
    emptied: StoreModel,
    seen: StoreModel,
    id: u128,
    key: Seq<char>,
    value: Seq<char>,
    handed: Option<Seq<char>>,
    written: i64,
    taken: i64,
    read: i64,
)
    requires
        store.set_gives(stored, id, key, value, written),
        stored.take_gives(emptied, handed, id, key, taken),
        emptied.touch_gives(seen, id, read),
    ensures
        handed == Some(value),
        seen.cache[id].lookup(key).is_none(),
{
}

/// Clearing a session that is in memory deletes every entry and leaves expiry
/// and flags as they were.
pub proof fn law_clear_keeps_lifecycle(
    store: StoreModel,
    cleared: StoreModel,
    id: u128,
    key: Seq<char>,
    now: i64,
)
    requires
        store.cache.contains_key(id),
        store.clear_gives(cleared, id, now),
    ensures
        cleared.cache[id].lookup(key).is_none(),
        cleared.cache[id].expiry == store.cache[id].expiry,
        cleared.cache[id].longterm == store.cache[id].longterm,
        cleared.cache[id].storable == store.cache[id].storable,
        cleared.cache[id].pending_destroy == store.cache[id].pending_destroy,
{
}

/// An operation on one session leaves every other session as it is.
pub proof fn law_sessions_are_independent(
    store: StoreModel,
    after: StoreModel,
    id: u128,
    other: u128,
    key: Seq<char>,
    value: Seq<char>,
    handed: Option<Seq<char>>,
    flag: bool,
    now: i64,
)
    requires
        id != other,
        ({
            ||| store.touch_gives(after, id, now)
            ||| store.set_gives(after, id, key, value, now)
            ||| store.remove_gives(after, id, key, now)
            ||| store.take_gives(after, handed, id, key, now)
            ||| store.clear_gives(after, id, now)
            ||| store.destroy_gives(after, id, now)
            ||| store.set_longterm_gives(after, id, flag, now)
            ||| store.set_store_gives(after, id, flag, now)
        }),
    ensures
        after.cache.contains_key(other) == store.cache.contains_key(other),
        after.cache[other] == store.cache[other],
{
}

/// Setting the long-term flag lets the matching lifespan start at `now`, and
/// leaves the entries of a session that is in memory as they were.
pub proof fn law_longterm_sets_expiry(
    store: StoreModel,
    after: StoreModel,
    id: u128,
    longterm: bool,
    now: i64,
)
    requires
        store.set_longterm_gives(after, id, longterm, now),
    ensures
        after.cache[id].longterm == longterm,
        after.cache[id].expiry == deadline(
            now,
            if longterm {
                store.longterm_lifespan
            } else {
                store.default_lifespan
            },
        ),
        store.cache.contains_key(id) ==> after.cache[id].entries == store.cache[id].entries,
{
}

/// A session that is marked for removal is not counted as live, though the
/// data of a session that is in memory is still there.
pub proof fn law_destroyed_is_not_live(
    store: StoreModel,
    doomed: StoreModel,
    id: u128,
    now: i64,
    later: i64,
)
    requires
        store.destroy_gives(doomed, id, now),
    ensures
        !doomed.live_ids(later).contains(id),
        store.cache.contains_key(id) ==> doomed.cache[id].entries == store.cache[id].entries,
{
}

/// After a sweep, a session that was marked for removal is gone from memory
/// and is not read from its row again, so that the next access finds a new
/// and empty session; after a complete sweep the backing store has no row for
/// it.
pub proof fn law_destroy_then_sweep(
    store: StoreModel,
    doomed: StoreModel,
    after: StoreModel,
    seen: StoreModel,
    id: u128,
    key: Seq<char>,
    destroyed: i64,
    swept_at: i64,
    complete: bool,
    read: i64,
    unsaved: Set<u128>,
)
    requires
        store.valid(),
        store.destroy_gives(doomed, id, destroyed),
        doomed.swept(after, swept_at, complete, unsaved),
        after.touch_gives(seen, id, read),
    ensures
        !after.cache.contains_key(id),
        after.stored_row(id).is_none(),
        seen.cache[id] == DataModel::fresh(deadline(read, store.default_lifespan), read),
        seen.cache[id].lookup(key).is_none(),
        complete ==> !after.rows.contains_key(after.key(id)) && !table_ids(
            after.rows,
            after.table,
        ).contains(id),
{
}

/// Renewing a session moves its data to the fresh identifier: what was stored
/// is read under the fresh identifier, and nothing stands under the old one.
/// After a sweep the old identifier is not read from its row again, and after
/// a complete sweep the backing store has no row for it.
pub proof fn law_renew_moves_data(
    store: StoreModel,
    stored: StoreModel,
    moved: StoreModel,
    seen: StoreModel,
    after: StoreModel,
    old_id: u128,
    fresh: u128,
    key: Seq<char>,
    value: Seq<char>,
    written: i64,
    renewed: i64,
    read: i64,
    swept_at: i64,
    complete: bool,
    unsaved: Set<u128>,
)
    requires
        store.valid(),
        store.set_gives(stored, old_id, key, value, written),
        stored.renew_gives(moved, old_id, fresh, renewed),
        moved.touch_gives(seen, fresh, read),
        moved.swept(after, swept_at, complete, unsaved),
    ensures
        fresh != old_id,
        seen.cache[fresh].lookup(key) == Some(value),
        !moved.cache.contains_key(old_id),
        !after.cache.contains_key(old_id),
        after.stored_row(old_id).is_none(),
        complete ==> !after.rows.contains_key(after.key(old_id)) && !table_ids(
            after.rows,
            after.table,
        ).contains(old_id),
{
}

/// A session that has expired and was not accessed since is not counted as
/// live, and a sweep removes it from memory, so that the next access finds a
/// new and empty session. After a complete sweep the backing store has no row
/// for it.
pub proof fn law_expired_is_swept(
    store: StoreModel,
    after: StoreModel,
    seen: StoreModel,
    id: u128,
    now: i64,
    complete: bool,
    read: i64,
    unsaved: Set<u128>,
)
    requires
        store.valid(),
        store.cache.contains_key(id),
        store.cache[id].expired(now),
        store.cache[id].last_seen < now,
        store.swept(after, now, complete, unsaved),
        after.touch_gives(seen, id, read),
    ensures
        !store.live_ids(now).contains(id),
        !after.cache.contains_key(id),
        !after.live_ids(read).contains(id),
        after.stored_row(id).is_none(),
        seen.cache[id] == DataModel::fresh(deadline(read, store.default_lifespan), read),
        complete ==> !after.rows.contains_key(after.key(id)) && !table_ids(
            after.rows,
            after.table,
        ).contains(id),
{
}

/// After a sweep, complete or not, no session is read again from a row that
/// the sweep was to delete: the row is gone, or it still awaits deletion.
pub proof fn law_deleted_rows_stay_unread(
    store: StoreModel,
    after: StoreModel,
    id: u128,
    now: i64,
    complete: bool,
    unsaved: Set<u128>,
)
    requires
        store.valid(),
        store.deletes(id, now),
        !store.writes(id, now),
        store.swept(after, now, complete, unsaved),
    ensures
        after.stored_row(id).is_none(),
{
}

/// A session that stops being storable keeps its data in memory, and after a
/// complete sweep the backing store has no row for it.
pub proof fn law_unstorable_is_unloaded(
    store: StoreModel,
    marked: StoreModel,
    after: StoreModel,
    id: u128,
    now: i64,
    swept_at: i64,
    unsaved: Set<u128>,
)
    requires
        store.valid(),
        store.cache.contains_key(id),
        store.set_store_gives(marked, id, false, now),
        !marked.cache[id].purgeable(swept_at),
        marked.swept(after, swept_at, true, unsaved),
    ensures
        after.cache.contains_key(id),
        after.cache[id].entries == store.cache[id].entries,
        !after.rows.contains_key(after.key(id)),
{
}

/// A session that becomes storable and is live at the sweep has, after a
/// complete sweep, a row in the backing store that matches what is in memory.
pub proof fn law_storable_is_saved(
    store: StoreModel,
    marked: StoreModel,
    after: StoreModel,
    id: u128,
    now: i64,
    swept_at: i64,
    unsaved: Set<u128>,
)
    requires
        store.persistent,
        store.cache.contains_key(id),
        store.set_store_gives(marked, id, true, now),
        marked.cache[id].live(swept_at),
        marked.swept(after, swept_at, true, unsaved),
    ensures
        after.cache.contains_key(id),
        after.cache[id].entries == store.cache[id].entries,
        !after.cache[id].dirty,
        after.rows.contains_key(after.key(id)),
        StoreModel::row_matches(after.rows[after.key(id)], after.cache[id]),
{
    assert(after.rows.contains_key((marked.table, id)));
}

/// Where the table holds no row but that of a session and no other session
/// is in memory, the count after the session was renewed and a complete sweep
/// has written it is one: the row of the old identifier is gone and only that
/// of the fresh identifier is counted.
pub proof fn law_renew_leaves_one_row(
    store: StoreModel,
    moved: StoreModel,
    after: StoreModel,
    old_id: u128,
    fresh: u128,
    renewed: i64,
    swept_at: i64,
    unsaved: Set<u128>,
)
    requires
        store.valid(),
        store.persistent,
        forall|id: u128| store.cache.contains_key(id) ==> id == old_id,
        forall|id: u128| store.rows.contains_key((store.table, id)) ==> id == old_id,
        store.renew_gives(moved, old_id, fresh, renewed),
        moved.cache[fresh].storable,
        moved.cache[fresh].live(swept_at),
        moved.swept(after, swept_at, true, unsaved),
    ensures
        table_ids(after.rows, after.table) == set![fresh],
        after.session_count(swept_at) == 1,
{
    assert(moved.cache.contains_key(fresh));
    assert(moved.cache[fresh].due_for_save(swept_at));
    assert(moved.reconciled(after.rows, swept_at));
    assert forall|id: u128| table_ids(after.rows, after.table).contains(id) <==> id == fresh by {
        let key = (moved.table, id);
        assert(after.rows.contains_key(key) || !after.rows.contains_key(key));
        if id == fresh {
            assert(moved.writes(id, swept_at));
        } else {
            assert(!moved.cache.contains_key(id));
            assert(!moved.writes(id, swept_at));
            if !moved.deletes(id, swept_at) {
                assert(!moved.rows.contains_key(key));
            }
        }
    }
    assert(table_ids(after.rows, after.table) =~= set![fresh]);
}

/// The row of a session that a sweep has written does not await deletion
/// after the sweep, complete or not, and the session counts as saved: the
/// next sweep leaves the row alone.
pub proof fn law_written_row_is_kept(
    store: StoreModel,
    after: StoreModel,
    id: u128,
    now: i64,
    complete: bool,
    unsaved: Set<u128>,
)
    requires
        store.has_written(id, now, unsaved),
        store.swept(after, now, complete, unsaved),
    ensures
        !after.doomed.contains(id),
        after.cache.contains_key(id),
        after.cache[id] == store.cache[id].saved(),
        complete && store.persistent ==> after.rows.contains_key(after.key(id))
            && StoreModel::row_matches(after.rows[after.key(id)], after.cache[id]),
{
    assert(store.cache.contains_key(id));
    assert(after.cache.contains_key(id));
    if complete && store.persistent {
        assert(store.reconciled(after.rows, now));
        assert(after.rows.contains_key((store.table, id)));
    }
}

} // verus!
