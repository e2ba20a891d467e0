//! The session store as a mathematical value, and what each operation makes of
//! it.

use vstd::prelude::*;
use crate::cache::live_in;
use crate::codec::decoded;
use crate::data::{deadline, DataModel};
use crate::id::is_random_uuid;
use crate::pool::{table_ids, RowModel};

verus! {

/// A session store as a mathematical value.
pub struct StoreModel {
    /// The sessions that are held in memory, by identifier.
    pub cache: Map<u128, DataModel>,
    /// The identifiers whose row in the backing store awaits deletion.
    pub doomed: Set<u128>,
    /// Whether the store has a backing store.
    pub persistent: bool,
    /// The rows of the backing store; empty where there is none.
    pub rows: Map<(Seq<char>, u128), RowModel>,
    /// The table of the backing store that holds the sessions.
    pub table: Seq<char>,
    /// The lifespan of a session, in seconds.
    pub default_lifespan: u32,
    /// The lifespan of a long-term session, in seconds.
    pub longterm_lifespan: u32,
    /// The seconds between two sweeps.
    pub sweep_interval: u32,
    /// How many identifiers are drawn before generation gives up.
    pub max_attempts: u32,
    /// The instant of the latest sweep.
    pub last_sweep: i64,
}

impl StoreModel {
    /// Whether the value can be that of a store: the sessions in memory are
    /// finitely many, and without a backing store there are no rows.
    pub open spec fn valid(self) -> bool {
        &&& self.cache.dom().finite()
        &&& !self.persistent ==> self.rows == Map::<(Seq<char>, u128), RowModel>::empty()
    }

    /// The key of the row of `id`.
    pub open spec fn key(self, id: u128) -> (Seq<char>, u128) {
        (self.table, id)
    }

    /// The row from which the session `id` may be brought into memory: the row
    /// of `id`, unless it awaits deletion.
    pub open spec fn stored_row(self, id: u128) -> Option<RowModel> {
        if self.persistent && !self.doomed.contains(id) && self.rows.contains_key(self.key(id)) {
            Some(self.rows[self.key(id)])
        } else {
            None
        }
    }

    /// A session that enters memory at `now`: read from `row` where there is
    /// one, it has not expired and its record can be decoded, else new and
    /// empty.
    pub open spec fn incoming(row: Option<RowModel>, lifespan: u32, now: i64) -> DataModel {
        match row {
            Some(stored) if !(stored.expiry < now) => match decoded(stored.data) {
                Some(record) => DataModel::restored(
                    record.entries,
                    record.longterm,
                    stored.expiry,
                    now,
                ),
                None => DataModel::fresh(deadline(now, lifespan), now),
            },
            _ => DataModel::fresh(deadline(now, lifespan), now),
        }
    }

    /// The session `id` as an access at `now` finds it: the session in memory
    /// where there is one, else the session that enters from `row`.
    pub open spec fn arrival(self, id: u128, now: i64, row: Option<RowModel>) -> DataModel {
        if self.cache.contains_key(id) {
            self.cache[id].touched(now)
        } else {
            Self::incoming(row, self.default_lifespan, now)
        }
    }

    /// The store with `data` in memory under `id`.
    pub open spec fn with_session(self, id: u128, data: DataModel) -> StoreModel {
        StoreModel { cache: self.cache.insert(id, data), ..self }
    }

    /// The store with the row of `id` due for deletion. Where there is no
    /// backing store nothing is recorded.
    pub open spec fn condemn(self, id: u128) -> StoreModel {
        if self.persistent {
            StoreModel { doomed: self.doomed.insert(id), ..self }
        } else {
            self
        }
    }

    /// Whether `id` is taken neither in memory nor in the backing store.
    pub open spec fn is_free(self, id: u128) -> bool {
        !self.cache.contains_key(id) && !(self.persistent && self.rows.contains_key(self.key(id)))
    }

    /// Whether `id` is an identifier that a generation hands out: one that a
    /// draw can give and that is free.
    pub open spec fn issues(self, id: u128) -> bool {
        self.is_free(id) && is_random_uuid(id)
    }

    /// Whether some identifier that a draw can give is taken.
    pub open spec fn has_taken_draw(self) -> bool {
        exists|taken: u128| is_random_uuid(taken) && !(#[trigger] self.is_free(taken))
    }

    /// The lifespan that goes with a long-term flag.
    pub open spec fn lifespan_for(self, longterm: bool) -> u32 {
        if longterm {
            self.longterm_lifespan
        } else {
            self.default_lifespan
        }
    }

    /// The store after an access to the session `id` at `now`.
    pub open spec fn after_touch(self, id: u128, now: i64, row: Option<RowModel>) -> StoreModel {
        self.with_session(id, self.arrival(id, now, row))
    }

    /// The store after `value` was stored under `key` in the session `id`.
    pub open spec fn after_set(
        self,
        id: u128,
        key: Seq<char>,
        value: Seq<char>,
        now: i64,
        row: Option<RowModel>,
    ) -> StoreModel {
        self.with_session(id, self.arrival(id, now, row).with_entry(key, value))
    }

    /// The store after `key` was deleted from the session `id`.
    pub open spec fn after_remove(
        self,
        id: u128,
        key: Seq<char>,
        now: i64,
        row: Option<RowModel>,
    ) -> StoreModel {
        self.with_session(id, self.arrival(id, now, row).without_entry(key))
    }

    /// The store after the entries of the session `id` were deleted.
    pub open spec fn after_clear(self, id: u128, now: i64, row: Option<RowModel>) -> StoreModel {
        self.with_session(id, self.arrival(id, now, row).cleared())
    }

    /// The store after the session `id` was marked for removal.
    pub open spec fn after_destroy(self, id: u128, now: i64, row: Option<RowModel>) -> StoreModel {
        self.with_session(id, self.arrival(id, now, row).doomed())
    }

    /// The store after the long-term flag of the session `id` was set.
    pub open spec fn after_set_longterm(
        self,
        id: u128,
        longterm: bool,
        now: i64,
        row: Option<RowModel>,
    ) -> StoreModel {
        self.with_session(
            id,
            self.arrival(id, now, row).with_longterm(
                longterm,
                deadline(now, self.lifespan_for(longterm)),
            ),
        )
    }

    /// The store after the storable flag of the session `id` was set. A
    /// session that stops being storable has its row deleted at the next
    /// sweep.
    pub open spec fn after_set_store(
        self,
        id: u128,
        storable: bool,
        now: i64,
        row: Option<RowModel>,
    ) -> StoreModel {
        let placed = self.with_session(id, self.arrival(id, now, row).with_storable(storable));
        if storable {
            placed
        } else {
            placed.condemn(id)
        }
    }

    /// The store after the session `id` moved to the identifier `fresh`: the
    /// data stands under `fresh`, nothing stands under `id`, and the row of
    /// `id` is due for deletion.
    pub open spec fn after_renew(
        self,
        id: u128,
        fresh: u128,
        now: i64,
        row: Option<RowModel>,
    ) -> StoreModel {
        StoreModel {
            cache: self.cache.remove(id).insert(fresh, self.arrival(id, now, row).moved()),
            ..self
        }.condemn(id)
    }

    /// Whether `post` is the store after an access to the session `id` at
    /// `now`. The session enters from its stored row or, where there is none
    /// or the backing store fails, from no row; so it is in each of the
    /// predicates that follow.
    pub open spec fn touch_gives(self, post: StoreModel, id: u128, now: i64) -> bool {
        post == self.after_touch(id, now, None) || post == self.after_touch(
            id,
            now,
            self.stored_row(id),
        )
    }

    /// Whether `post` is the store after `value` was stored under `key` in
    /// the session `id`.
    pub open spec fn set_gives(
        self,
        post: StoreModel,
        id: u128,
        key: Seq<char>,
        value: Seq<char>,
        now: i64,
    ) -> bool {
        post == self.after_set(id, key, value, now, None) || post == self.after_set(
            id,
            key,
            value,
            now,
            self.stored_row(id),
        )
    }

    /// Whether `post` is the store after `key` was deleted from the session
    /// `id`.
    pub open spec fn remove_gives(
        self,
        post: StoreModel,
        id: u128,
        key: Seq<char>,
        now: i64,
    ) -> bool {
        post == self.after_remove(id, key, now, None) || post == self.after_remove(
            id,
            key,
            now,
            self.stored_row(id),
        )
    }

    /// Whether `post` is the store after `key` was taken from the session
    /// `id`, and `value` is what stood under it.
    pub open spec fn take_gives(
        self,
        post: StoreModel,
        value: Option<Seq<char>>,
        id: u128,
        key: Seq<char>,
        now: i64,
    ) -> bool {
        ||| post == self.after_remove(id, key, now, None) && value == self.arrival(
            id,
            now,
            None,
        ).lookup(key)
        ||| post == self.after_remove(id, key, now, self.stored_row(id)) && value == self.arrival(
            id,
            now,
            self.stored_row(id),
        ).lookup(key)
    }

    /// Whether `post` is the store after the entries of the session `id` were
    /// deleted.
    pub open spec fn clear_gives(self, post: StoreModel, id: u128, now: i64) -> bool {
        post == self.after_clear(id, now, None) || post == self.after_clear(
            id,
            now,
            self.stored_row(id),
        )
    }

    /// Whether `post` is the store after the session `id` was marked for
    /// removal.
    pub open spec fn destroy_gives(self, post: StoreModel, id: u128, now: i64) -> bool {
        post == self.after_destroy(id, now, None) || post == self.after_destroy(
            id,
            now,
            self.stored_row(id),
        )
    }

    /// Whether `post` is the store after the long-term flag of the session
    /// `id` was set.
    pub open spec fn set_longterm_gives(
        self,
        post: StoreModel,
        id: u128,
        longterm: bool,
        now: i64,
    ) -> bool {
        post == self.after_set_longterm(id, longterm, now, None) || post
            == self.after_set_longterm(id, longterm, now, self.stored_row(id))
    }

    /// Whether `post` is the store after the storable flag of the session
    /// `id` was set.
    pub open spec fn set_store_gives(
        self,
        post: StoreModel,
        id: u128,
        storable: bool,
        now: i64,
    ) -> bool {
        post == self.after_set_store(id, storable, now, None) || post == self.after_set_store(
            id,
            storable,
            now,
            self.stored_row(id),
        )
    }

    /// Whether `post` is the store after the session `id` moved to the
    /// identifier `fresh`, which a generation handed out.
    pub open spec fn renew_gives(self, post: StoreModel, id: u128, fresh: u128, now: i64) -> bool {
        &&& self.issues(fresh)
        &&& post == self.after_renew(id, fresh, now, None) || post == self.after_renew(
            id,
            fresh,
            now,
            self.stored_row(id),
        )
    }

    /// The identifiers of the sessions in memory that are live at `now`.
    pub open spec fn live_ids(self, now: i64) -> Set<u128> {
        live_in(self.cache, now)
    }

    /// The number of live sessions in memory, capped at the largest count
    /// that can be reported.
    pub open spec fn live_count(self, now: i64) -> i64 {
        if self.live_ids(now).len() > i64::MAX {
            i64::MAX
        } else {
            self.live_ids(now).len() as i64
        }
    }

    /// The number of sessions at `now`: the rows of the table where there is
    /// a backing store, else the live sessions in memory.
    pub open spec fn session_count(self, now: i64) -> int {
        if self.persistent {
            table_ids(self.rows, self.table).len() as int
        } else {
            self.live_count(now) as int
        }
    }

    /// Whether a sweep is due at `now`: the sweep interval has passed since
    /// the latest sweep.
    pub open spec fn sweep_due(self, now: i64) -> bool {
        now - self.last_sweep >= self.sweep_interval
    }

    /// Whether a sweep at `now` removes the session `id` from memory.
    pub open spec fn purges(self, id: u128, now: i64) -> bool {
        self.cache.contains_key(id) && self.cache[id].purgeable(now)
    }

    /// Whether a sweep at `now` writes the session `id` to the backing store.
    pub open spec fn writes(self, id: u128, now: i64) -> bool {
        self.persistent && self.cache.contains_key(id) && self.cache[id].due_for_save(now)
    }

    /// Whether a sweep at `now` deletes the row of `id`.
    pub open spec fn deletes(self, id: u128, now: i64) -> bool {
        self.persistent && (self.doomed.contains(id) || self.purges(id, now))
    }

    /// Whether a sweep at `now` has written the session `id`, the writes of
    /// the sessions of `unsaved` having failed.
    pub open spec fn has_written(self, id: u128, now: i64, unsaved: Set<u128>) -> bool {
        self.writes(id, now) && !unsaved.contains(id)
    }

    /// The sessions in memory after a sweep at `now` whose calls into the
    /// backing store all succeeded.
    pub open spec fn swept_cache(self, now: i64) -> Map<u128, DataModel> {
        Map::new(
            |id: u128| self.cache.contains_key(id) && !self.cache[id].purgeable(now),
            |id: u128|
                if self.writes(id, now) {
                    self.cache[id].saved()
                } else {
                    self.cache[id]
                },
        )
    }

    /// Whether `row` is what a sweep writes for `data`.
    pub open spec fn row_matches(row: RowModel, data: DataModel) -> bool {
        row.expiry == data.expiry && decoded(row.data) == Some(data.record())
    }

    /// Whether `rows` are the rows of the backing store after a sweep at `now`
    /// whose calls all succeeded. Of the table of the store: a session that is
    /// written has a matching row; else a row that is deleted, or that has
    /// expired at `now`, is gone; every other row is as it was.
    pub open spec fn reconciled(self, rows: Map<(Seq<char>, u128), RowModel>, now: i64) -> bool {
        forall|key: (Seq<char>, u128)|
            #![trigger rows.contains_key(key)]
            #![trigger self.rows.contains_key(key)]
            if key.0 != self.table {
                same_row(rows, self.rows, key)
            } else if self.writes(key.1, now) {
                rows.contains_key(key) && Self::row_matches(rows[key], self.cache[key.1])
            } else if self.deletes(key.1, now) {
                !rows.contains_key(key)
            } else {
                rows.contains_key(key) == (self.rows.contains_key(key) && !(self.rows[key].expiry
                    < now)) && (rows.contains_key(key) ==> rows[key] == self.rows[key])
            }
    }

    /// Whether `post` may be the store after a sweep at `now`, with
    /// `complete` saying that every call into the backing store succeeded and
    /// `unsaved` holding the identifiers of the sessions whose write failed.
    ///
    /// In every case the sessions that the sweep removes are gone from memory
    /// and the others are as they were, but that every session that was due
    /// and whose write did not fail counts as saved. After a complete sweep no
    /// write has failed, no row awaits deletion, and the rows are reconciled.
    /// After any other sweep every row that the sweep was to delete awaits
    /// deletion, but that of a session which the sweep has written: its row
    /// is the one that was written and is to stay.
    pub open spec fn swept(
        self,
        post: StoreModel,
        now: i64,
        complete: bool,
        unsaved: Set<u128>,
    ) -> bool {
        &&& post == (StoreModel {
            cache: post.cache,
            doomed: post.doomed,
            rows: post.rows,
            last_sweep: now,
            ..self
        })
        &&& forall|id: u128| #[trigger]
            post.cache.contains_key(id) <==> self.cache.contains_key(id) && !self.purges(id, now)
        &&& forall|id: u128| #[trigger] unsaved.contains(id) ==> self.writes(id, now)
        &&& forall|id: u128| #[trigger]
            post.cache.contains_key(id) ==> post.cache[id] == if self.has_written(
                id,
                now,
                unsaved,
            ) {
                self.cache[id].saved()
            } else {
                self.cache[id]
            }
        &&& post.doomed == if complete {
            Set::<u128>::empty()
        } else {
            Set::new(|id: u128| self.deletes(id, now) && !self.has_written(id, now, unsaved))
        }
        &&& !self.persistent ==> complete && post.rows == self.rows
        &&& complete ==> unsaved == Set::<u128>::empty() && post.cache == self.swept_cache(now)
            && (self.persistent ==> self.reconciled(post.rows, now))
    }
}

/// Whether `key` has the same row, or none, in `left` and in `right`.
pub open spec fn same_row(
    left: Map<(Seq<char>, u128), RowModel>,
    right: Map<(Seq<char>, u128), RowModel>,
    key: (Seq<char>, u128),
) -> bool {
    left.contains_key(key) == right.contains_key(key) && (left.contains_key(key) ==> left[key]
        == right[key])
}

/// The rows that are left when the rows of `table` under the identifiers
/// `ids` are deleted.
pub open spec fn without_ids(
    rows: Map<(Seq<char>, u128), RowModel>,
    table: Seq<char>,
    ids: Set<u128>,
) -> Map<(Seq<char>, u128), RowModel> {
    Map::new(
        |key: (Seq<char>, u128)| rows.contains_key(key) && !(key.0 == table && ids.contains(key.1)),
        |key: (Seq<char>, u128)| rows[key],
    )
}

/// Whether `rows` are what becomes of `before` once every session of `cache`
/// that is not in `waiting` has been dealt with at `now`: the row of a session
/// that is purged is gone, a session that is due has a matching row, and every
/// other row is as it was.
pub open spec fn settled(
    before: Map<(Seq<char>, u128), RowModel>,
    cache: Map<u128, DataModel>,
    waiting: Map<u128, DataModel>,
    table: Seq<char>,
    now: i64,
    rows: Map<(Seq<char>, u128), RowModel>,
) -> bool {
    forall|key: (Seq<char>, u128)|
        #![trigger rows.contains_key(key)]
        #![trigger before.contains_key(key)]
        if key.0 == table && cache.contains_key(key.1) && !waiting.contains_key(key.1) {
            if cache[key.1].purgeable(now) {
                !rows.contains_key(key)
            } else if cache[key.1].due_for_save(now) {
                rows.contains_key(key) && StoreModel::row_matches(rows[key], cache[key.1])
            } else {
                same_row(rows, before, key)
            }
        } else {
            same_row(rows, before, key)
        }
}

} // verus!
