//! The session store: the cache of sessions in memory, the optional backing
//! store, and the operations on them.

use vstd::prelude::*;
use crate::cache::SessionCache;
use crate::config::SessionConfig;
use crate::data::{deadline_after, DataModel, SessionData};
use crate::id::{ids_of, SessionID};
use crate::model::StoreModel;
use crate::pool::{DatabasePool, PoolError, RowModel, StoredRow};
use crate::reconcile::{
    drain_queue, lemma_sweep_reconciles, purge_cache, settle_sessions, without_saved,
};
use crate::session::{generation_fails, Session};

verus! {

/// Why an operation of the session store failed.
#[derive(Debug)]
pub enum SessionError {
    /// The backing store could not be reached or reported an error.
    PersistenceUnavailable(PoolError),
    /// Every identifier that was drawn was already taken.
    DuplicateIDExhaustion,
}

impl SessionError {
    /// Whether the error came from the backing store.
    pub fn is_persistence(&self) -> (persistence: bool)
        ensures
            persistence == (self is PersistenceUnavailable),
    {
        match self {
            SessionError::PersistenceUnavailable(_) => true,
            SessionError::DuplicateIDExhaustion => false,
        }
    }

    /// The error in words: for a failure of the backing store what it
    /// reported, else a fixed sentence.
    pub fn message(&self) -> (text: String)
        ensures
            text@ == match *self {
                SessionError::PersistenceUnavailable(cause) => cause.message@,
                SessionError::DuplicateIDExhaustion => "no free session identifier was found"@,
            },
    {
        match self {
            SessionError::PersistenceUnavailable(cause) => cause.message.clone(),
            SessionError::DuplicateIDExhaustion => {
                "no free session identifier was found".to_owned()
            },
        }
    }
}

/// What a sweep did.
#[derive(Debug)]
pub struct SweepReport {
    /// The number of sessions that were removed from memory.
    pub purged: usize,
    /// Whether every call into the backing store succeeded.
    pub complete: bool,
    /// The identifiers of the sessions whose write failed; they stay due.
    pub unsaved: Vec<SessionID>,
}

/// What the vetting of a candidate identifier found.
#[derive(Clone, Copy, Debug, PartialEq, Eq, Structural)]
pub enum Verdict {
    /// The identifier is taken nowhere.
    Free,
    /// The identifier is taken, in memory or in the backing store.
    Taken,
}

/// The text of an optional string, as a mathematical value.
pub open spec fn text_of(value: Option<String>) -> Option<Seq<char>> {
    match value {
        Some(text) => Some(text@),
        None => None,
    }
}

/// The row of an optional stored row, as a mathematical value.
pub open spec fn row_of(stored: Option<StoredRow>) -> Option<RowModel> {
    match stored {
        Some(row) => Some(row@),
        None => None,
    }
}

/// Judges a candidate identifier from what the lookups found: whether the
/// cache holds it, and what the backing store, if any, answered.
pub fn judge(resident: bool, persisted: Option<Result<bool, PoolError>>) -> (verdict: Result<
    Verdict,
    SessionError,
>)
    ensures
        verdict == judged(resident, persisted),
{
    if resident {
        Ok(Verdict::Taken)
    } else {
        match persisted {
            None => Ok(Verdict::Free),
            Some(Ok(false)) => Ok(Verdict::Free),
            Some(Ok(true)) => Ok(Verdict::Taken),
            Some(Err(error)) => Err(SessionError::PersistenceUnavailable(error)),
        }
    }
}

/// The verdict on a candidate identifier. An identifier that the cache holds
/// is taken. Else the backing store decides, and its failure is an error: an
/// identifier of which nothing is known is never handed out as free.
pub open spec fn judged(resident: bool, persisted: Option<Result<bool, PoolError>>) -> Result<
    Verdict,
    SessionError,
> {
    if resident {
        Ok(Verdict::Taken)
    } else {
        match persisted {
            None => Ok(Verdict::Free),
            Some(Ok(present)) => Ok(
                if present {
                    Verdict::Taken
                } else {
                    Verdict::Free
                },
            ),
            Some(Err(error)) => Err(SessionError::PersistenceUnavailable(error)),
        }
    }
}

/// The row that an answer of the backing store to a load gives. A failure
/// counts as no row: the session is then new and empty, and the caller's
/// request goes on.
pub open spec fn answered(answer: Result<Option<StoredRow>, PoolError>) -> Option<StoredRow> {
    match answer {
        Ok(row) => row,
        Err(_) => None,
    }
}

/// Reads the row out of an answer of the backing store to a load.
pub fn read_answer(answer: Result<Option<StoredRow>, PoolError>) -> (loaded: Option<StoredRow>)
    ensures
        loaded == answered(answer),
{
    match answer {
        Ok(row) => row,
        Err(_) => None,
    }
}

/// Builds the session that enters memory at `now` from the row that was
/// read, if any. A row that has expired, or that holds no record, counts
/// as no row.
pub fn revive(loaded: Option<StoredRow>, lifespan: u32, now: i64) -> (data: SessionData)
    ensures
        data@ == StoreModel::incoming(row_of(loaded), lifespan, now),
{
    let read = match loaded {
        Some(stored) => {
            if stored.expiry < now {
                None
            } else {
                SessionData::decode(stored.data.as_slice(), stored.expiry, now)
            }
        },
        None => None,
    };
    match read {
        Some(data) => data,
        None => SessionData::new(deadline_after(now, lifespan), now),
    }
}

/// The session store.
pub struct SessionStore<P: DatabasePool> {
    cache: SessionCache,
    doomed: Vec<u128>,
    persistence: Option<P>,
    config: SessionConfig,
    last_sweep: i64,
}

impl<P: DatabasePool> View for SessionStore<P> {
    type V = StoreModel;

    closed spec fn view(&self) -> StoreModel {
        StoreModel {
            cache: self.cache@,
            doomed: self.doomed@.to_set(),
            persistent: self.persistence is Some,
            rows: match self.persistence {
                Some(pool) => pool.rows(),
                None => Map::empty(),
            },
            table: self.config.table_name@,
            default_lifespan: self.config.default_lifespan,
            longterm_lifespan: self.config.longterm_lifespan,
            sweep_interval: self.config.sweep_interval,
            max_attempts: self.config.max_attempts,
            last_sweep: self.last_sweep,
        }
    }
}

impl<P: DatabasePool> SessionStore<P> {
    /// The settings of the store.
    pub closed spec fn settings(&self) -> SessionConfig {
        self.config
    }

    /// The mathematical value of a store is a valid one: the sessions in
    /// memory are finitely many, and where there is no backing store there
    /// are no rows.
    pub proof fn lemma_view_is_valid(&self)
        ensures
            self@.valid(),
            self@.cache.dom().finite(),
    {
        self.cache.lemma_view_is_finite();
    }

    /// A store with an empty cache. The backing store is used where one is
    /// given and the settings enable it.
    pub fn new(persistence: Option<P>, config: SessionConfig) -> (store: SessionStore<P>)
        ensures
            store.settings() == config,
            store@ == (StoreModel {
                cache: Map::empty(),
                doomed: Set::empty(),
                persistent: config.persistence_enabled && persistence is Some,
                rows: match persistence {
                    Some(pool) if config.persistence_enabled => pool.rows(),
                    _ => Map::empty(),
                },
                table: config.table_name@,
                default_lifespan: config.default_lifespan,
                longterm_lifespan: config.longterm_lifespan,
                sweep_interval: config.sweep_interval,
                max_attempts: config.max_attempts,
                last_sweep: 0,
            }),
    {
        let persistence = if config.persistence_enabled {
            persistence
        } else {
            None
        };
        let store = SessionStore {
            cache: SessionCache::new(),
            doomed: Vec::new(),
            persistence,
            config,
            last_sweep: 0,
        };
        proof {
            assert(store.doomed@.to_set() =~= Set::<u128>::empty());
        }
        store
    }

    /// The settings of the store.
    pub fn config(&self) -> (config: &SessionConfig)
        ensures
            *config == self.settings(),
            config.table_name@ == self@.table,
            config.default_lifespan == self@.default_lifespan,
            config.longterm_lifespan == self@.longterm_lifespan,
            config.sweep_interval == self@.sweep_interval,
            config.max_attempts == self@.max_attempts,
    {
        &self.config
    }

    /// The backing store, where there is one.
    pub fn persistence(&self) -> (pool: Option<&P>)
        ensures
            pool is Some == self@.persistent,
            pool matches Some(held) ==> held.rows() == self@.rows,
    {
        self.persistence.as_ref()
    }

    /// Gives up the store and hands out its backing store, where there is
    /// one. What was only in memory is lost.
    pub fn into_persistence(self) -> (pool: Option<P>)
        ensures
            pool is Some == self@.persistent,
            pool matches Some(held) ==> held.rows() == self@.rows,
    {
        self.persistence
    }

    /// The session under `id` as it stands in memory, without an access.
    pub fn peek(&self, id: SessionID) -> (found: Option<&SessionData>)
        ensures
            match found {
                Some(data) => self@.cache.contains_key(id@) && self@.cache[id@] == data@,
                None => !self@.cache.contains_key(id@),
            },
    {
        self.cache.get(id.as_u128())
    }

    /// The instant of the latest sweep.
    pub fn last_sweep(&self) -> (instant: i64)
        ensures
            instant == self@.last_sweep,
    {
        self.last_sweep
    }

    /// Whether the store has a backing store.
    pub fn is_persistent(&self) -> (persistent: bool)
        ensures
            persistent == self@.persistent,
    {
        self.persistence.is_some()
    }

    /// Whether the cache holds a session under `id`.
    pub fn is_resident(&self, id: SessionID) -> (resident: bool)
        ensures
            resident == self@.cache.contains_key(id@),
    {
        self.cache.contains(id.as_u128())
    }

    /// Whether the row of `id` awaits deletion.
    pub fn is_doomed(&self, id: SessionID) -> (doomed: bool)
        ensures
            doomed == self@.doomed.contains(id@),
    {
        let mut i: usize = 0;
        while i < self.doomed.len()
            invariant
                i <= self.doomed@.len(),
                forall|j: int| 0 <= j < i ==> self.doomed@[j] != id@,
            decreases self.doomed@.len() - i,
        {
            if self.doomed[i] == id.as_u128() {
                return true;
            }
            i += 1;
        }
        false
    }

    /// Vets a candidate identifier: looks it up in the cache and, where it is
    /// not there and a backing store is in use, asks the backing store. The
    /// verdict is free exactly where the identifier is free; a failure of the
    /// backing store is an error.
    pub fn vet(&self, candidate: SessionID) -> (verdict: Result<Verdict, SessionError>)
        ensures
            match verdict {
                Ok(Verdict::Free) => self@.is_free(candidate@),
                Ok(Verdict::Taken) => !self@.is_free(candidate@),
                Err(SessionError::PersistenceUnavailable(_)) => self@.persistent
                    && !self@.cache.contains_key(candidate@),
                Err(SessionError::DuplicateIDExhaustion) => false,
            },
            !self@.persistent ==> verdict is Ok,
            self@.cache.contains_key(candidate@) ==> verdict is Ok,
    {
        let resident = self.cache.contains(candidate.as_u128());
        if resident {
            return judge(true, None);
        }
        let persisted = match &self.persistence {
            Some(pool) => Some(pool.is_present(candidate, self.config.table_name.as_str())),
            None => None,
        };
        judge(false, persisted)
    }

    /// Reads the row from which the session `id` may be brought into memory.
    /// A failure of the backing store counts as no row.
    fn fetch(&self, id: SessionID) -> (loaded: Option<StoredRow>)
        ensures
            loaded matches Some(stored) ==> self@.stored_row(id@) == Some(stored@),
    {
        match &self.persistence {
            Some(pool) => {
                if self.is_doomed(id) {
                    None
                } else {
                    read_answer(pool.load(id, self.config.table_name.as_str()))
                }
            },
            None => None,
        }
    }

    /// Takes the session `id` in hand for an access at `now`: out of the
    /// cache where it is there, else read from the backing store or made new.
    /// The caller puts the session back under `id`.
    fn enter(&mut self, id: SessionID, now: i64) -> (data: SessionData)
        ensures
            forall|put: DataModel| #[trigger]
                final(self)@.cache.insert(id@, put) == old(self)@.cache.insert(id@, put),
            final(self)@ == (StoreModel { cache: final(self)@.cache, ..old(self)@ }),
            final(self).settings() == old(self).settings(),
            data@ == old(self)@.arrival(id@, now, None) || data@ == old(self)@.arrival(
                id@,
                now,
                old(self)@.stored_row(id@),
            ),
            !old(self)@.cache.contains_key(id@) && old(self)@.stored_row(id@) is None ==> data@
                == old(self)@.arrival(id@, now, None),
    {
        if self.cache.contains(id.as_u128()) {
            let held = self.cache.insert(id.as_u128(), SessionData::new(0, 0));
            match held {
                Some(mut data) => {
                    data.touch(now);
                    data
                },
                None => SessionData::new(deadline_after(now, self.config.default_lifespan), now),
            }
        } else {
            let loaded = self.fetch(id);
            revive(loaded, self.config.default_lifespan, now)
        }
    }

    /// Puts the session that was taken in hand back under `id`.
    fn leave(&mut self, id: SessionID, data: SessionData)
        ensures
            final(self)@ == (StoreModel {
                cache: old(self)@.cache.insert(id@, data@),
                ..old(self)@
            }),
            final(self).settings() == old(self).settings(),
    {
        let _ = self.cache.insert(id.as_u128(), data);
    }

    /// Brings the session `id` into memory, where it is not there yet, and
    /// records an access at `now`. The session comes from the row that the
    /// backing store holds for it, or is new and empty where there is no such
    /// row or the backing store fails.
    pub fn load_session(&mut self, id: SessionID, now: i64)
        ensures
            final(self).settings() == old(self).settings(),
            old(self)@.touch_gives(final(self)@, id@, now),
    {
        let data = self.enter(id, now);
        self.leave(id, data);
    }

    /// The value under `key` in the session `id`, after an access at `now`.
    pub fn get(&mut self, id: SessionID, key: &str, now: i64) -> (value: Option<String>)
        ensures
            final(self).settings() == old(self).settings(),
            old(self)@.touch_gives(final(self)@, id@, now),
            final(self)@.cache.contains_key(id@),
            text_of(value) == final(self)@.cache[id@].lookup(key@),
    {
        let data = self.enter(id, now);
        let value = data.get(key);
        self.leave(id, data);
        value
    }

    /// Stores `value` under `key` in the session `id`.
    pub fn set(&mut self, id: SessionID, key: &str, value: String, now: i64)
        ensures
            final(self).settings() == old(self).settings(),
            old(self)@.set_gives(final(self)@, id@, key@, value@, now),
    {
        let mut data = self.enter(id, now);
        data.set(key, value);
        self.leave(id, data);
    }

    /// Deletes `key` from the session `id`; the entries stay as they are where
    /// it is absent.
    pub fn remove(&mut self, id: SessionID, key: &str, now: i64)
        ensures
            final(self).settings() == old(self).settings(),
            old(self)@.remove_gives(final(self)@, id@, key@, now),
    {
        let mut data = self.enter(id, now);
        data.remove(key);
        self.leave(id, data);
    }

    /// Deletes `key` from the session `id` and hands out the value that stood
    /// under it, in one step.
    pub fn get_remove(&mut self, id: SessionID, key: &str, now: i64) -> (value: Option<String>)
        ensures
            final(self).settings() == old(self).settings(),
            old(self)@.take_gives(final(self)@, text_of(value), id@, key@, now),
    {
        let mut data = self.enter(id, now);
        let value = data.take(key);
        self.leave(id, data);
        value
    }

    /// Deletes every entry of the session `id`. Expiry and flags stay as they
    /// are.
    pub fn clear_session_data(&mut self, id: SessionID, now: i64)
        ensures
            final(self).settings() == old(self).settings(),
            old(self)@.clear_gives(final(self)@, id@, now),
    {
        let mut data = self.enter(id, now);
        data.clear();
        self.leave(id, data);
    }

    /// Records that the row of `id` is due for deletion. Nothing is recorded
    /// where there is no backing store.
    fn condemn(&mut self, id: SessionID)
        ensures
            final(self).settings() == old(self).settings(),
            final(self)@ == old(self)@.condemn(id@),
    {
        if self.persistence.is_some() {
            self.doomed.push(id.as_u128());
            proof {
                old(self).doomed@.lemma_push_to_set_commute(id@);
            }
        }
    }

    /// Marks the session `id` for removal at the next sweep. Until then its
    /// data can still be read.
    pub fn destroy(&mut self, id: SessionID, now: i64)
        ensures
            final(self).settings() == old(self).settings(),
            old(self)@.destroy_gives(final(self)@, id@, now),
    {
        let mut data = self.enter(id, now);
        data.doom();
        self.leave(id, data);
    }

    /// Sets the long-term flag of the session `id` and lets its lifespan, the
    /// long-term one or the default one, start anew at `now`.
    pub fn set_longterm(&mut self, id: SessionID, longterm: bool, now: i64)
        ensures
            final(self).settings() == old(self).settings(),
            old(self)@.set_longterm_gives(final(self)@, id@, longterm, now),
    {
        let lifespan = if longterm {
            self.config.longterm_lifespan
        } else {
            self.config.default_lifespan
        };
        let mut data = self.enter(id, now);
        data.set_longterm(longterm, deadline_after(now, lifespan));
        self.leave(id, data);
    }

    /// Sets the storable flag of the session `id`. A session that stops being
    /// storable stays in memory and has its row deleted at the next sweep; one
    /// that becomes storable is written at the next sweep.
    pub fn set_store(&mut self, id: SessionID, storable: bool, now: i64)
        ensures
            final(self).settings() == old(self).settings(),
            old(self)@.set_store_gives(final(self)@, id@, storable, now),
    {
        let mut data = self.enter(id, now);
        data.set_storable(storable);
        self.leave(id, data);
        if !storable {
            self.condemn(id);
        }
    }

    /// Moves the session `id` to the identifier `fresh`: the data stands
    /// under `fresh`, nothing stands under `id`, and the row of `id` is deleted
    /// at the next sweep. Where a session is in memory under `fresh` nothing
    /// is moved and the store stays as it is, so that no session is lost.
    pub fn renew_to(&mut self, id: SessionID, fresh: SessionID, now: i64) -> (moved: bool)
        ensures
            final(self).settings() == old(self).settings(),
            moved == !old(self)@.cache.contains_key(fresh@),
            if moved {
                final(self)@ == old(self)@.after_renew(id@, fresh@, now, None) || final(self)@
                    == old(self)@.after_renew(id@, fresh@, now, old(self)@.stored_row(id@))
            } else {
                final(self)@ == old(self)@
            },
    {
        if self.cache.contains(fresh.as_u128()) {
            return false;
        }
        let mut data = self.enter(id, now);
        let ghost held = self@.cache;
        let _ = self.cache.remove(id.as_u128());
        data.mark_moved();
        let _ = self.cache.insert(fresh.as_u128(), data);
        proof {
            let pre = old(self)@;
            let filler = DataModel::fresh(0, 0);
            assert(held.remove(id@) =~= held.insert(id@, filler).remove(id@));
            assert(pre.cache.remove(id@) =~= pre.cache.insert(id@, filler).remove(id@));
        }
        self.condemn(id);
        true
    }

    /// Moves the session `id` to a fresh identifier and hands that out. The
    /// data stands under the fresh identifier, nothing stands under `id`, and
    /// the row of `id` is deleted at the next sweep. Where no fresh identifier
    /// can be had the store stays as it is.
    pub fn renew(&mut self, id: SessionID, now: i64) -> (renewed: Result<SessionID, SessionError>)
        ensures
            final(self).settings() == old(self).settings(),
            match renewed {
                Ok(fresh) => old(self)@.renew_gives(final(self)@, id@, fresh@, now),
                Err(error) => final(self)@ == old(self)@ && generation_fails(old(self)@, error),
            },
            old(self)@.max_attempts == 0 ==> renewed matches Err(
                SessionError::DuplicateIDExhaustion,
            ),
    {
        match Session::generate_uuid(&*self) {
            Ok(fresh) => {
                let _ = self.renew_to(id, fresh, now);
                Ok(fresh)
            },
            Err(error) => Err(error),
        }
    }

    /// The number of sessions: the rows of the table where there is a backing
    /// store, else the sessions in memory that are live at `now`.
    pub fn count_sessions(&self, now: i64) -> (total: Result<i64, SessionError>)
        ensures
            match total {
                Ok(n) => n == self@.session_count(now),
                Err(error) => error is PersistenceUnavailable && self@.persistent,
            },
            !self@.persistent ==> total is Ok,
    {
        match &self.persistence {
            Some(pool) => match pool.count(self.config.table_name.as_str()) {
                Ok(n) => Ok(n),
                Err(error) => Err(SessionError::PersistenceUnavailable(error)),
            },
            None => {
                let n = self.cache.count_live(now);
                if n as u64 > 0x7fff_ffff_ffff_ffffu64 {
                    Ok(i64::MAX)
                } else {
                    Ok(n as i64)
                }
            },
        }
    }

    /// Whether a sweep is due at `now`.
    pub fn sweep_due(&self, now: i64) -> (due: bool)
        ensures
            due == self@.sweep_due(now),
    {
        let interval = self.config.sweep_interval as i64;
        if self.last_sweep > i64::MAX - interval {
            false
        } else {
            now >= self.last_sweep + interval
        }
    }

    /// Sweeps the store at `now`. Every session that is marked for removal, or
    /// that has expired and was not accessed since, leaves memory. Where there
    /// is a backing store, the rows that await deletion and the rows of the
    /// sessions that left are deleted, the sessions that are due are written,
    /// and the expired rows are purged. A call into the backing store that
    /// fails does not change what is in memory: a session whose write failed
    /// stays due, and after a sweep in which any call failed every deletion is
    /// made again at the next sweep, so that a session that left memory never
    /// comes back from its row. The row of a session that the sweep has
    /// written is not deleted again.
    pub fn sweep(&mut self, now: i64) -> (report: SweepReport)
        ensures
            final(self).settings() == old(self).settings(),
            old(self)@.swept(final(self)@, now, report.complete, ids_of(report.unsaved@)),
            report.purged + final(self)@.cache.dom().len() == old(self)@.cache.dom().len(),
    {
        let ghost pre = self@;
        let mut queue: Vec<u128> = Vec::new();
        std::mem::swap(&mut self.doomed, &mut queue);
        let mut left = SessionCache::new();
        std::mem::swap(&mut self.cache, &mut left);
        let report = match self.persistence.take() {
            None => {
                let (kept, purged) = purge_cache(left, now);
                self.cache = kept;
                let unsaved: Vec<SessionID> = Vec::new();
                proof {
                    assert(self.doomed@.to_set() =~= Set::<u128>::empty());
                    assert(self.cache@ =~= pre.swept_cache(now));
                    assert(ids_of(unsaved@) =~= Set::<u128>::empty());
                }
                SweepReport { purged, complete: true, unsaved }
            },
            Some(mut pool) => {
                let table = self.config.table_name.as_str();
                let drained = drain_queue(&mut pool, &queue, table);
                let ghost first = pool.rows();
                let done = settle_sessions(&mut pool, left, &mut queue, table, now);
                let ghost second = pool.rows();
                let cleaned = pool.cleanup(table, now).is_ok();
                let complete = drained && done.complete && cleaned;
                queue = if complete {
                    Vec::new()
                } else {
                    without_saved(&queue, &done.saved)
                };
                proof {
                    if complete {
                        lemma_sweep_reconciles(pre, first, second, pool.rows(), now);
                        assert(queue@.to_set() =~= Set::<u128>::empty());
                        assert(ids_of(done.unsaved@) =~= Set::<u128>::empty());
                        assert(done.kept@ =~= pre.swept_cache(now));
                    } else {
                        assert(queue@.to_set() =~= Set::new(
                            |id: u128|
                                pre.deletes(id, now) && !pre.has_written(
                                    id,
                                    now,
                                    ids_of(done.unsaved@),
                                ),
                        ));
                    }
                }
                self.cache = done.kept;
                self.doomed = queue;
                self.persistence = Some(pool);
                SweepReport { purged: done.purged, complete, unsaved: done.unsaved }
            },
        };
        self.last_sweep = now;
        report
    }

    /// Sweeps the store at `now` where a sweep is due, and leaves it as it is
    /// where none is.
    pub fn sweep_if_due(&mut self, now: i64) -> (report: Option<SweepReport>)
        ensures
            final(self).settings() == old(self).settings(),
            match report {
                Some(made) => old(self)@.sweep_due(now) && old(self)@.swept(
                    final(self)@,
                    now,
                    made.complete,
                    ids_of(made.unsaved@),
                ) && made.purged + final(self)@.cache.dom().len() == old(self)@.cache.dom().len(),
                None => !old(self)@.sweep_due(now) && final(self)@ == old(self)@,
            },
    {
        if self.sweep_due(now) {
            Some(self.sweep(now))
        } else {
            None
        }
    }
}

} // verus!
