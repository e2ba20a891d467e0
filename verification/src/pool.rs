//! The backing store behind a session store: the interface that a database
//! driver implements, and an in-memory implementation of it.

use vstd::prelude::*;
use crate::id::SessionID;

verus! {

/// Why a call into the backing store failed.
#[derive(Debug)]
pub struct PoolError {
    /// What the backing store reported.
    pub message: String,
}

/// What the backing store keeps of one session, as a mathematical value.
pub struct RowModel {
    /// The session's record.
    pub data: Seq<u8>,
    /// The instant after which the row may be purged.
    pub expiry: i64,
}

/// What the backing store keeps of one session.
#[derive(Debug)]
pub struct StoredRow {
    /// The session's record.
    pub data: Vec<u8>,
    /// The instant after which the row may be purged.
    pub expiry: i64,
}

impl View for StoredRow {
    type V = RowModel;

    open spec fn view(&self) -> RowModel {
        RowModel { data: self.data@, expiry: self.expiry }
    }
}

/// The identifiers that have a row in `table`.
pub open spec fn table_ids(rows: Map<(Seq<char>, u128), RowModel>, table: Seq<char>) -> Set<u128> {
    Set::new(|id: u128| rows.contains_key((table, id)))
}

/// The rows that are left when the rows of `table` that have expired at `now`
/// are purged.
pub open spec fn purged_rows(
    rows: Map<(Seq<char>, u128), RowModel>,
    table: Seq<char>,
    now: i64,
) -> Map<(Seq<char>, u128), RowModel> {
    Map::new(
        |key: (Seq<char>, u128)|
            rows.contains_key(key) && !(key.0 == table && rows[key].expiry < now),
        |key: (Seq<char>, u128)| rows[key],
    )
}

/// A backing store that keeps one row per table name and session identifier.
///
/// Every call may fail. A call that reports success has done what its
/// contract says; of a call that reports failure nothing is known, not even
/// that the rows are as they were.
pub trait DatabasePool {
    /// The rows that the backing store holds, by table name and identifier.
    spec fn rows(&self) -> Map<(Seq<char>, u128), RowModel>;

    /// Whether `table` has a row for `id`.
    fn is_present(&self, id: SessionID, table: &str) -> (found: Result<bool, PoolError>)
        ensures
            found matches Ok(present) ==> present == self.rows().contains_key((table@, id@)),
    ;

    /// The row of `id` in `table`, if there is one.
    fn load(&self, id: SessionID, table: &str) -> (found: Result<Option<StoredRow>, PoolError>)
        ensures
            found matches Ok(row) ==> match row {
                Some(stored) => self.rows().contains_key((table@, id@)) && self.rows()[(
                    table@,
                    id@,
                )] == stored@,
                None => !self.rows().contains_key((table@, id@)),
            },
    ;

    /// Writes the row of `id` in `table`, in place of any row that was there.
    fn save(&mut self, id: SessionID, data: Vec<u8>, expiry: i64, table: &str) -> (done: Result<
        (),
        PoolError,
    >)
        ensures
            done is Ok ==> final(self).rows() == old(self).rows().insert(
                (table@, id@),
                RowModel { data: data@, expiry },
            ),
    ;

    /// Deletes the row of `id` in `table`, if there is one.
    fn delete(&mut self, id: SessionID, table: &str) -> (done: Result<(), PoolError>)
        ensures
            done is Ok ==> final(self).rows() == old(self).rows().remove((table@, id@)),
    ;

    /// The number of rows in `table`.
    fn count(&self, table: &str) -> (total: Result<i64, PoolError>)
        ensures
            total matches Ok(n) ==> n == table_ids(self.rows(), table@).len(),
    ;

    /// Purges the rows of `table` that have expired at `now`.
    fn cleanup(&mut self, table: &str, now: i64) -> (done: Result<(), PoolError>)
        ensures
            done is Ok ==> final(self).rows() == purged_rows(old(self).rows(), table@, now),
    ;
}

/// One row of a [`MemoryPool`].
struct MemoryRow {
    table: String,
    id: u128,
    data: Vec<u8>,
    expiry: i64,
}

impl MemoryRow {
    spec fn key(self) -> (Seq<char>, u128) {
        (self.table@, self.id)
    }

    spec fn model(self) -> RowModel {
        RowModel { data: self.data@, expiry: self.expiry }
    }

    /// Whether the row belongs to `table` and has expired at `now`.
    spec fn lapsed(self, table: Seq<char>, now: i64) -> bool {
        self.table@ == table && self.expiry < now
    }
}

/// Whether `row` stands in `rows` at `from` or later.
spec fn has_row(rows: Seq<MemoryRow>, from: int, row: MemoryRow) -> bool {
    exists|i: int| from <= i < rows.len() && 0 <= i && #[trigger] rows[i] == row
}

/// A place at `from` or later at which `row` stands in `rows`.
spec fn seat_of(rows: Seq<MemoryRow>, from: int, row: MemoryRow) -> int {
    choose|i: int| from <= i < rows.len() && 0 <= i && #[trigger] rows[i] == row
}

/// Whether some row of `rows` stands under `key`.
spec fn holds_key(rows: Seq<MemoryRow>, key: (Seq<char>, u128)) -> bool {
    exists|i: int| 0 <= i < rows.len() && (#[trigger] rows[i]).key() == key
}

/// A place in `rows` at which `key` stands.
spec fn place_of(rows: Seq<MemoryRow>, key: (Seq<char>, u128)) -> int {
    choose|i: int| 0 <= i < rows.len() && (#[trigger] rows[i]).key() == key
}

/// Whether no key occurs twice in `rows`.
spec fn distinct_rows(rows: Seq<MemoryRow>) -> bool {
    forall|i: int, j: int|
        0 <= i < j < rows.len() ==> (#[trigger] rows[i]).key() != (#[trigger] rows[j]).key()
}

/// The map that a list of rows stands for.
spec fn rows_map(rows: Seq<MemoryRow>) -> Map<(Seq<char>, u128), RowModel> {
    Map::new(
        |key: (Seq<char>, u128)| holds_key(rows, key),
        |key: (Seq<char>, u128)| rows[place_of(rows, key)].model(),
    )
}

/// Deleting the row at `at` deletes its key from the map.
proof fn lemma_rows_map_remove(rows: Seq<MemoryRow>, at: int)
    requires
        distinct_rows(rows),
        0 <= at < rows.len(),
    ensures
        distinct_rows(rows.remove(at)),
        rows_map(rows.remove(at)) == rows_map(rows).remove(rows[at].key()),
{
    let rest = rows.remove(at);
    let left = rows_map(rest);
    let right = rows_map(rows).remove(rows[at].key());
    assert forall|key: (Seq<char>, u128)| left.contains_key(key) <==> right.contains_key(key) by {
        if right.contains_key(key) {
            let a = place_of(rows, key);
            let i = if a < at { a } else { a - 1 };
            assert(rest[i] == rows[a]);
        }
    }
}

/// Adding a row under a key that is not in the list adds it to the map.
proof fn lemma_rows_map_push(rows: Seq<MemoryRow>, row: MemoryRow)
    requires
        distinct_rows(rows),
        !holds_key(rows, row.key()),
    ensures
        distinct_rows(rows.push(row)),
        rows_map(rows.push(row)) == rows_map(rows).insert(row.key(), row.model()),
{
    let more = rows.push(row);
    let left = rows_map(more);
    let right = rows_map(rows).insert(row.key(), row.model());
    assert forall|key: (Seq<char>, u128)| left.contains_key(key) <==> right.contains_key(key) by {
        if right.contains_key(key) {
            if key == row.key() {
                assert(more[rows.len() as int].key() == key);
            } else {
                let i = place_of(rows, key);
                assert(more[i] == rows[i]);
            }
        }
    }
}

/// A backing store that keeps its rows in memory. It can be told to fail, in
/// every call or in the purge of expired rows alone, so that callers can be
/// run against a store that is out of reach or that fails in part.
pub struct MemoryPool {
    rows: Vec<MemoryRow>,
    failing: bool,
    refusing_cleanup: bool,
}

impl MemoryPool {
    /// The invariant of the pool: no table and identifier occur twice among
    /// the rows.
    #[verifier::type_invariant]
    spec fn well_formed(self) -> bool {
        distinct_rows(self.rows@)
    }

    /// Whether every call fails.
    pub closed spec fn is_failing(self) -> bool {
        self.failing
    }

    /// Whether the purge of expired rows fails.
    pub closed spec fn refuses_cleanup(self) -> bool {
        self.refusing_cleanup
    }

    /// An empty backing store that works.
    pub fn new() -> (pool: MemoryPool)
        ensures
            pool.rows() == Map::<(Seq<char>, u128), RowModel>::empty(),
            !pool.is_failing(),
            !pool.refuses_cleanup(),
    {
        MemoryPool { rows: Vec::new(), failing: false, refusing_cleanup: false }
    }

    /// Makes every later call fail (`true`) or work again (`false`). The rows
    /// stay as they are.
    pub fn set_failing(&mut self, failing: bool)
        ensures
            final(self).rows() == old(self).rows(),
            final(self).is_failing() == failing,
            final(self).refuses_cleanup() == old(self).refuses_cleanup(),
    {
        proof {
            use_type_invariant(&*self);
        }
        self.failing = failing;
    }

    /// Makes every later purge of expired rows fail (`true`) or work again
    /// (`false`), whatever the other calls do. The rows stay as they are.
    pub fn set_refusing_cleanup(&mut self, refusing: bool)
        ensures
            final(self).rows() == old(self).rows(),
            final(self).is_failing() == old(self).is_failing(),
            final(self).refuses_cleanup() == refusing,
    {
        proof {
            use_type_invariant(&*self);
        }
        self.refusing_cleanup = refusing;
    }

    /// The error of a call on a store that was told to fail.
    fn out_of_reach() -> (error: PoolError)
        ensures
            error.message@ == "the backing store is out of reach"@,
    {
        PoolError { message: "the backing store is out of reach".to_owned() }
    }

    /// The place of the row of `id` in `table`.
    fn find(&self, id: u128, table: &String) -> (at: Option<usize>)
        ensures
            match at {
                Some(i) => i < self.rows@.len() && self.rows@[i as int].key() == (table@, id),
                None => !holds_key(self.rows@, (table@, id)),
            },
    {
        let mut i: usize = 0;
        while i < self.rows.len()
            invariant
                i <= self.rows@.len(),
                forall|j: int| 0 <= j < i ==> (#[trigger] self.rows@[j]).key() != (table@, id),
            decreases self.rows@.len() - i,
        {
            if self.rows[i].id == id && self.rows[i].table == *table {
                return Some(i);
            }
            i += 1;
        }
        None
    }
}

impl DatabasePool for MemoryPool {
    closed spec fn rows(&self) -> Map<(Seq<char>, u128), RowModel> {
        rows_map(self.rows@)
    }

    fn is_present(&self, id: SessionID, table: &str) -> (found: Result<bool, PoolError>)
        ensures
            found is Ok <==> !self.is_failing(),
    {
        if self.failing {
            return Err(Self::out_of_reach());
        }
        let name = table.to_owned();
        Ok(self.find(id.as_u128(), &name).is_some())
    }

    fn load(&self, id: SessionID, table: &str) -> (found: Result<Option<StoredRow>, PoolError>)
        ensures
            found is Ok <==> !self.is_failing(),
    {
        if self.failing {
            return Err(Self::out_of_reach());
        }
        proof {
            use_type_invariant(self);
        }
        let name = table.to_owned();
        match self.find(id.as_u128(), &name) {
            Some(i) => {
                let row = &self.rows[i];
                Ok(Some(StoredRow { data: row.data.clone(), expiry: row.expiry }))
            },
            None => Ok(None),
        }
    }

    fn save(&mut self, id: SessionID, data: Vec<u8>, expiry: i64, table: &str) -> (done: Result<
        (),
        PoolError,
    >)
        ensures
            done is Ok <==> !old(self).is_failing(),
            done is Err ==> final(self).rows() == old(self).rows(),
            final(self).is_failing() == old(self).is_failing(),
            final(self).refuses_cleanup() == old(self).refuses_cleanup(),
    {
        if self.failing {
            return Err(Self::out_of_reach());
        }
        proof {
            use_type_invariant(&*self);
        }
        let name = table.to_owned();
        let found = self.find(id.as_u128(), &name);
        let mut rows: Vec<MemoryRow> = Vec::new();
        std::mem::swap(&mut self.rows, &mut rows);
        if let Some(i) = found {
            proof {
                lemma_rows_map_remove(rows@, i as int);
            }
            rows.remove(i);
        }
        let row = MemoryRow { table: name, id: id.as_u128(), data, expiry };
        proof {
            lemma_rows_map_push(rows@, row);
        }
        rows.push(row);
        self.rows = rows;
        Ok(())
    }

    fn delete(&mut self, id: SessionID, table: &str) -> (done: Result<(), PoolError>)
        ensures
            done is Ok <==> !old(self).is_failing(),
            done is Err ==> final(self).rows() == old(self).rows(),
            final(self).is_failing() == old(self).is_failing(),
            final(self).refuses_cleanup() == old(self).refuses_cleanup(),
    {
        if self.failing {
            return Err(Self::out_of_reach());
        }
        proof {
            use_type_invariant(&*self);
        }
        let name = table.to_owned();
        if let Some(i) = self.find(id.as_u128(), &name) {
            let mut rows: Vec<MemoryRow> = Vec::new();
            std::mem::swap(&mut self.rows, &mut rows);
            proof {
                lemma_rows_map_remove(rows@, i as int);
            }
            rows.remove(i);
            self.rows = rows;
        }
        Ok(())
    }

    fn count(&self, table: &str) -> (total: Result<i64, PoolError>)
        ensures
            self.is_failing() ==> total is Err,
            !self.is_failing() && table_ids(self.rows(), table@).len() <= i64::MAX ==> total is Ok,
    {
        if self.failing {
            return Err(Self::out_of_reach());
        }
        proof {
            use_type_invariant(self);
        }
        let name = table.to_owned();
        let mut n: u64 = 0;
        let ghost mut seen: Set<u128> = Set::empty();
        let mut i: usize = 0;
        while i < self.rows.len()
            invariant
                i <= self.rows@.len(),
                distinct_rows(self.rows@),
                name@ == table@,
                seen.finite(),
                n <= i,
                n == seen.len(),
                forall|id: u128|
                    seen.contains(id) <==> exists|j: int|
                        0 <= j < i && (#[trigger] self.rows@[j]).key() == (table@, id),
            decreases self.rows@.len() - i,
        {
            if self.rows[i].table == name {
                proof {
                    seen = seen.insert(self.rows@[i as int].id);
                }
                n += 1;
            }
            i += 1;
        }
        proof {
            assert(seen =~= table_ids(self.rows(), table@));
        }
        if n > 0x7fff_ffff_ffff_ffffu64 {
            Err(PoolError { message: "too many rows to count".to_owned() })
        } else {
            Ok(n as i64)
        }
    }

    fn cleanup(&mut self, table: &str, now: i64) -> (done: Result<(), PoolError>)
        ensures
            done is Ok <==> !old(self).is_failing() && !old(self).refuses_cleanup(),
            done is Err ==> final(self).rows() == old(self).rows(),
            final(self).is_failing() == old(self).is_failing(),
            final(self).refuses_cleanup() == old(self).refuses_cleanup(),
    {
        if self.failing || self.refusing_cleanup {
            return Err(Self::out_of_reach());
        }
        proof {
            use_type_invariant(&*self);
        }
        let name = table.to_owned();
        let mut left: Vec<MemoryRow> = Vec::new();
        std::mem::swap(&mut self.rows, &mut left);
        let ghost all = left@;
        let mut kept: Vec<MemoryRow> = Vec::new();
        while left.len() > 0
            invariant
                distinct_rows(all),
                name@ == table@,
                left@.len() <= all.len(),
                left@ == all.take(left@.len() as int),
                distinct_rows(kept@),
                forall|k: int|
                    0 <= k < kept@.len() ==> !(#[trigger] kept@[k]).lapsed(table@, now) && has_row(
                        all,
                        left@.len() as int,
                        kept@[k],
                    ),
                forall|j: int|
                    left@.len() <= j < all.len() && !(#[trigger] all[j]).lapsed(table@, now)
                        ==> has_row(kept@, 0, all[j]),
            decreases left@.len(),
        {
            let ghost m = left@.len() - 1;
            let ghost before = kept@;
            let row = left.pop().unwrap();
            if !(row.expiry < now && row.table == name) {
                proof {
                    let more = before.push(row);
                    assert forall|j: int|
                        m <= j < all.len() && !(#[trigger] all[j]).lapsed(
                            table@,
                            now,
                        ) implies has_row(more, 0, all[j]) by {
                        if j == m {
                            assert(more[before.len() as int] == all[j]);
                        } else {
                            let k = seat_of(before, 0, all[j]);
                            assert(more[k] == all[j]);
                        }
                    }
                }
                kept.push(row);
            }
        }
        self.rows = kept;
        Ok(())
    }
}

/// A backing store in which every identifier is taken: it holds a row under
/// every table name and identifier and lets none be changed. A generation
/// against it finds every draw taken and runs to exhaustion.
pub struct CrowdedPool {}

impl CrowdedPool {
    /// The crowded backing store.
    pub fn new() -> (pool: CrowdedPool)
        ensures
            forall|key: (Seq<char>, u128)| #[trigger] pool.rows().contains_key(key),
    {
        CrowdedPool {}
    }

    /// The error of a call that would change or count the rows.
    fn fixed() -> (error: PoolError)
        ensures
            error.message@ == "the rows of a crowded backing store are fixed"@,
    {
        PoolError { message: "the rows of a crowded backing store are fixed".to_owned() }
    }
}

impl DatabasePool for CrowdedPool {
    closed spec fn rows(&self) -> Map<(Seq<char>, u128), RowModel> {
        Map::new(
            |key: (Seq<char>, u128)| true,
            |key: (Seq<char>, u128)| RowModel { data: Seq::empty(), expiry: 0 },
        )
    }

    fn is_present(&self, id: SessionID, table: &str) -> (found: Result<bool, PoolError>)
        ensures
            found matches Ok(true),
    {
        Ok(true)
    }

    fn load(&self, id: SessionID, table: &str) -> (found: Result<Option<StoredRow>, PoolError>)
        ensures
            found matches Ok(Some(stored)) && stored@ == (RowModel {
                data: Seq::empty(),
                expiry: 0,
            }),
    {
        Ok(Some(StoredRow { data: Vec::new(), expiry: 0 }))
    }

    fn save(&mut self, id: SessionID, data: Vec<u8>, expiry: i64, table: &str) -> (done: Result<
        (),
        PoolError,
    >)
        ensures
            done is Err,
            final(self).rows() == old(self).rows(),
    {
        Err(Self::fixed())
    }

    fn delete(&mut self, id: SessionID, table: &str) -> (done: Result<(), PoolError>)
        ensures
            done is Err,
            final(self).rows() == old(self).rows(),
    {
        Err(Self::fixed())
    }

    fn count(&self, table: &str) -> (total: Result<i64, PoolError>)
        ensures
            total is Err,
    {
        Err(Self::fixed())
    }

    fn cleanup(&mut self, table: &str, now: i64) -> (done: Result<(), PoolError>)
        ensures
            done is Err,
            final(self).rows() == old(self).rows(),
    {
        Err(Self::fixed())
    }
}

} // verus!
