//! Session handles: a session identifier with the operations of the store on
//! it.

use vstd::prelude::*;
use crate::id::SessionID;
use crate::model::StoreModel;
use crate::pool::DatabasePool;
use crate::store::{text_of, SessionError, SessionStore, Verdict};

verus! {

/// A handle on one session: its identifier. Every operation names the store
/// that it acts on.
#[derive(Clone, Copy, Debug)]
pub struct Session {
    id: SessionID,
}

impl View for Session {
    type V = u128;

    closed spec fn view(&self) -> u128 {
        self.id@
    }
}

/// The identifier that a caller presents: the one that its text denotes,
/// where it presents a text and the text is one of an identifier.
pub open spec fn presented(candidate: Option<&str>) -> Option<SessionID> {
    match candidate {
        Some(text) => SessionID::parsed(text@),
        None => None,
    }
}

/// The end of the generation after the vetting of `candidate`, the draw after
/// `drawn` earlier ones of the `allowed`, or `None` where the generation goes
/// on. A free candidate is handed out and a failed vetting is handed on. A
/// taken candidate ends the generation with `DuplicateIDExhaustion` where it
/// was the last draw that the settings allow, and else lets it go on.
pub open spec fn concluded_at(
    candidate: SessionID,
    verdict: Result<Verdict, SessionError>,
    drawn: u32,
    allowed: u32,
) -> Option<Result<SessionID, SessionError>> {
    match verdict {
        Ok(Verdict::Free) => Some(Ok(candidate)),
        Ok(Verdict::Taken) => if drawn + 1 >= allowed {
            Some(Err(SessionError::DuplicateIDExhaustion))
        } else {
            None
        },
        Err(error) => Some(Err(error)),
    }
}

/// Whether `error` is one with which a generation in `store` can end: the
/// backing store failed at a draw, or no draw is allowed, or some identifier
/// that a draw can give is taken.
pub open spec fn generation_fails(store: StoreModel, error: SessionError) -> bool {
    match error {
        SessionError::PersistenceUnavailable(_) => store.persistent && store.max_attempts > 0,
        SessionError::DuplicateIDExhaustion => store.max_attempts == 0 || store.has_taken_draw(),
    }
}

/// How a generation ended, and after how many draws.
#[derive(Debug)]
pub struct Generation {
    /// The identifier that was handed out, or why none was.
    pub end: Result<SessionID, SessionError>,
    /// The number of identifiers that were drawn.
    pub draws: u32,
}

impl Session {
    /// A handle on the session `id`.
    pub fn from_id(id: SessionID) -> (session: Session)
        ensures
            session@ == id@,
    {
        Session { id }
    }

    /// Resolves what a caller presents into a handle. A text that denotes an
    /// identifier is taken at its word, without asking whether a session
    /// stands under it: an identifier that is unknown gives an empty session
    /// at its first access. Else a fresh identifier is generated, and the
    /// store is as [`Session::generate_uuid`] finds it.
    pub fn new<P: DatabasePool>(store: &SessionStore<P>, candidate: Option<&str>) -> (session:
        Result<Session, SessionError>)
        ensures
            match presented(candidate) {
                Some(id) => session matches Ok(bound) && bound@ == id@,
                None => match session {
                    Ok(bound) => store@.issues(bound@),
                    Err(error) => generation_fails(store@, error),
                },
            },
            presented(candidate) is None && store@.max_attempts == 0 ==> session matches Err(
                SessionError::DuplicateIDExhaustion,
            ),
    {
        let parsed = match candidate {
            Some(text) => SessionID::parse(text),
            None => None,
        };
        Self::resolve(store, parsed)
    }

    /// Resolves what a caller presents into a handle, as [`Session::new`]
    /// does, and brings a session whose identifier was generated into memory
    /// at `now`: the identifier is taken from then on, so that no later
    /// generation hands it out again. A presented identifier is taken at its
    /// word and the store stays as it is; its session enters memory at its
    /// first access.
    pub fn open<P: DatabasePool>(
        store: &mut SessionStore<P>,
        candidate: Option<&str>,
        now: i64,
    ) -> (session: Result<Session, SessionError>)
        ensures
            final(store).settings() == old(store).settings(),
            match presented(candidate) {
                Some(id) => {
                    &&& session matches Ok(bound) && bound@ == id@
                    &&& final(store)@ == old(store)@
                },
                None => match session {
                    Ok(bound) => old(store)@.issues(bound@) && old(store)@.touch_gives(
                        final(store)@,
                        bound@,
                        now,
                    ),
                    Err(error) => final(store)@ == old(store)@ && generation_fails(
                        old(store)@,
                        error,
                    ),
                },
            },
            presented(candidate) is None && old(store)@.max_attempts == 0 ==> session matches Err(
                SessionError::DuplicateIDExhaustion,
            ),
    {
        let parsed = match candidate {
            Some(text) => SessionID::parse(text),
            None => None,
        };
        match parsed {
            Some(id) => Ok(Session { id }),
            None => match Self::generate_uuid(&*store) {
                Ok(id) => {
                    store.load_session(id, now);
                    Ok(Session { id })
                },
                Err(error) => Err(error),
            },
        }
    }

    /// Binds a handle to the identifier that was read from what the caller
    /// presented, or to a fresh one where none was read.
    pub fn resolve<P: DatabasePool>(store: &SessionStore<P>, parsed: Option<SessionID>) -> (session:
        Result<Session, SessionError>)
        ensures
            match parsed {
                Some(id) => session matches Ok(bound) && bound@ == id@,
                None => match session {
                    Ok(bound) => store@.issues(bound@),
                    Err(error) => generation_fails(store@, error),
                },
            },
            parsed is None && store@.max_attempts == 0 ==> session matches Err(
                SessionError::DuplicateIDExhaustion,
            ),
    {
        match parsed {
            Some(id) => Ok(Session { id }),
            None => match Self::generate_uuid(store) {
                Ok(id) => Ok(Session { id }),
                Err(error) => Err(error),
            },
        }
    }

    /// What the vetting of one candidate means for the generation, the
    /// candidate being the draw after `drawn` earlier ones of the `allowed`:
    /// the candidate is handed out where it is free, the error is handed on
    /// where the vetting failed, a taken candidate at the last allowed draw
    /// ends the generation with `DuplicateIDExhaustion`, and `None` says that
    /// another candidate is to be drawn.
    pub fn conclude_at(
        candidate: SessionID,
        verdict: Result<Verdict, SessionError>,
        drawn: u32,
        allowed: u32,
    ) -> (end: Option<Result<SessionID, SessionError>>)
        ensures
            end == concluded_at(candidate, verdict, drawn, allowed),
    {
        match verdict {
            Ok(Verdict::Free) => Some(Ok(candidate)),
            Ok(Verdict::Taken) => {
                if allowed == 0 || drawn >= allowed - 1 {
                    Some(Err(SessionError::DuplicateIDExhaustion))
                } else {
                    None
                }
            },
            Err(error) => Some(Err(error)),
        }
    }

    /// Draws random identifiers until one is free, in the cache and, where
    /// there is one, in the backing store, and counts the draws. Each draw is
    /// vetted and the generation goes on as [`Session::conclude_at`] says: it
    /// gives up with `DuplicateIDExhaustion` when the last draw that the
    /// settings allow gave an identifier that is taken, and with
    /// `PersistenceUnavailable` as soon as the backing store fails, so that an
    /// identifier of which the backing store said nothing is never handed
    /// out. It never draws more often than the settings allow.
    pub fn generate_counted<P: DatabasePool>(store: &SessionStore<P>) -> (made: Generation)
        ensures
            match made.end {
                Ok(fresh) => store@.issues(fresh@),
                Err(error) => generation_fails(store@, error),
            },
            made.draws <= store@.max_attempts,
            match made.end {
                Err(SessionError::DuplicateIDExhaustion) => made.draws == store@.max_attempts,
                _ => made.draws >= 1,
            },
    {
        let allowed = store.config().max_attempts;
        if allowed == 0 {
            return Generation { end: Err(SessionError::DuplicateIDExhaustion), draws: 0 };
        }
        let mut drawn: u32 = 0;
        loop
            invariant
                drawn < allowed,
                allowed == store@.max_attempts,
            decreases allowed - drawn,
        {
            let candidate = SessionID::random();
            match Self::conclude_at(candidate, store.vet(candidate), drawn, allowed) {
                Some(end) => {
                    proof {
                        if end matches Err(SessionError::DuplicateIDExhaustion) {
                            assert(!store@.is_free(candidate@));
                        }
                    }
                    return Generation { end, draws: drawn + 1 };
                },
                None => {
                    drawn += 1;
                },
            }
        }
    }

    /// Draws random identifiers until one is free, as
    /// [`Session::generate_counted`] does. A generation in a store in which
    /// nothing is taken, and that allows a draw, fails only with the backing
    /// store.
    pub fn generate_uuid<P: DatabasePool>(store: &SessionStore<P>) -> (id: Result<
        SessionID,
        SessionError,
    >)
        ensures
            match id {
                Ok(fresh) => store@.issues(fresh@),
                Err(error) => generation_fails(store@, error),
            },
            store@.max_attempts == 0 ==> id matches Err(SessionError::DuplicateIDExhaustion),
    {
        Self::generate_counted(store).end
    }

    /// Moves the session to a fresh identifier, binds the handle to it and
    /// hands it out; the caller carries it to the client. The row of the old
    /// identifier is deleted at the next sweep. Where no fresh identifier can
    /// be had, store and handle stay as they are.
    pub fn renew<P: DatabasePool>(&mut self, store: &mut SessionStore<P>, now: i64) -> (renewed:
        Result<SessionID, SessionError>)
        ensures
            final(store).settings() == old(store).settings(),
            match renewed {
                Ok(fresh) => final(self)@ == fresh@ && old(store)@.renew_gives(
                    final(store)@,
                    old(self)@,
                    fresh@,
                    now,
                ),
                Err(error) => final(self)@ == old(self)@ && final(store)@ == old(store)@
                    && generation_fails(old(store)@, error),
            },
            old(store)@.max_attempts == 0 ==> renewed matches Err(
                SessionError::DuplicateIDExhaustion,
            ),
    {
        match store.renew(self.id, now) {
            Ok(fresh) => {
                self.id = fresh;
                Ok(fresh)
            },
            Err(error) => Err(error),
        }
    }

    /// Marks the session for removal at the next sweep.
    pub fn destroy<P: DatabasePool>(&self, store: &mut SessionStore<P>, now: i64)
        ensures
            final(store).settings() == old(store).settings(),
            old(store)@.destroy_gives(final(store)@, self@, now),
    {
        store.destroy(self.id, now);
    }

    /// Sets the long-term flag of the session and lets its lifespan start
    /// anew at `now`.
    pub fn set_longterm<P: DatabasePool>(
        &self,
        store: &mut SessionStore<P>,
        longterm: bool,
        now: i64,
    )
        ensures
            final(store).settings() == old(store).settings(),
            old(store)@.set_longterm_gives(final(store)@, self@, longterm, now),
    {
        store.set_longterm(self.id, longterm, now);
    }

    /// Sets the storable flag of the session.
    pub fn set_store<P: DatabasePool>(&self, store: &mut SessionStore<P>, storable: bool, now: i64)
        ensures
            final(store).settings() == old(store).settings(),
            old(store)@.set_store_gives(final(store)@, self@, storable, now),
    {
        store.set_store(self.id, storable, now);
    }

    /// The value under `key`, or `None` where there is none.
    pub fn get<P: DatabasePool>(&self, store: &mut SessionStore<P>, key: &str, now: i64) -> (value:
        Option<String>)
        ensures
            final(store).settings() == old(store).settings(),
            old(store)@.touch_gives(final(store)@, self@, now),
            final(store)@.cache.contains_key(self@),
            text_of(value) == final(store)@.cache[self@].lookup(key@),
    {
        store.get(self.id, key, now)
    }

    /// Deletes `key` and hands out the value that stood under it, in one
    /// step.
    pub fn get_remove<P: DatabasePool>(
        &self,
        store: &mut SessionStore<P>,
        key: &str,
        now: i64,
    ) -> (value: Option<String>)
        ensures
            final(store).settings() == old(store).settings(),
            old(store)@.take_gives(final(store)@, text_of(value), self@, key@, now),
    {
        store.get_remove(self.id, key, now)
    }

    /// Stores `value` under `key`, in place of any value that was there.
    pub fn set<P: DatabasePool>(
        &self,
        store: &mut SessionStore<P>,
        key: &str,
        value: String,
        now: i64,
    )
        ensures
            final(store).settings() == old(store).settings(),
            old(store)@.set_gives(final(store)@, self@, key@, value@, now),
    {
        store.set(self.id, key, value, now);
    }

    /// Deletes `key`; the entries stay as they are where it is absent.
    pub fn remove<P: DatabasePool>(&self, store: &mut SessionStore<P>, key: &str, now: i64)
        ensures
            final(store).settings() == old(store).settings(),
            old(store)@.remove_gives(final(store)@, self@, key@, now),
    {
        store.remove(self.id, key, now);
    }

    /// Deletes every entry of the session. Expiry and flags stay as they are.
    pub fn clear<P: DatabasePool>(&self, store: &mut SessionStore<P>, now: i64)
        ensures
            final(store).settings() == old(store).settings(),
            old(store)@.clear_gives(final(store)@, self@, now),
    {
        store.clear_session_data(self.id, now);
    }

    /// The number of sessions: the rows of the table where there is a backing
    /// store, else the sessions in memory that are live at `now`.
    pub fn count<P: DatabasePool>(&self, store: &SessionStore<P>, now: i64) -> (total: Result<
        i64,
        SessionError,
    >)
        ensures
            match total {
                Ok(n) => n == store@.session_count(now),
                Err(error) => error is PersistenceUnavailable && store@.persistent,
            },
            !store@.persistent ==> total is Ok,
    {
        store.count_sessions(now)
    }

    /// The identifier of the session.
    pub fn get_session_id(&self) -> (id: SessionID)
        ensures
            id@ == self@,
    {
        self.id
    }
}

/// A handle on one session that offers only the operations that leave the
/// session's data as it is.
#[derive(Clone, Copy, Debug)]
pub struct ReadOnlySession {
    id: SessionID,
}

impl View for ReadOnlySession {
    type V = u128;

    closed spec fn view(&self) -> u128 {
        self.id@
    }
}

impl From<Session> for ReadOnlySession {
    fn from(session: Session) -> (handle: ReadOnlySession) {
        ReadOnlySession { id: session.id }
    }
}

impl vstd::std_specs::convert::FromSpecImpl<Session> for ReadOnlySession {
    open spec fn obeys_from_spec() -> bool {
        true
    }

    closed spec fn from_spec(session: Session) -> ReadOnlySession {
        ReadOnlySession { id: session.id }
    }
}

/// Converting a handle into a read-only one keeps the identifier.
pub proof fn lemma_from_keeps_identifier(session: Session)
    ensures
        <ReadOnlySession as vstd::std_specs::convert::FromSpec<Session>>::from_spec(session)@
            == session@,
{
}

impl ReadOnlySession {
    /// The read-only handle on the session of `session`.
    pub fn of(session: Session) -> (handle: ReadOnlySession)
        ensures
            handle@ == session@,
    {
        ReadOnlySession { id: session.id }
    }

    /// The value under `key`, or `None` where there is none.
    pub fn get<P: DatabasePool>(&self, store: &mut SessionStore<P>, key: &str, now: i64) -> (value:
        Option<String>)
        ensures
            final(store).settings() == old(store).settings(),
            old(store)@.touch_gives(final(store)@, self@, now),
            final(store)@.cache.contains_key(self@),
            text_of(value) == final(store)@.cache[self@].lookup(key@),
    {
        store.get(self.id, key, now)
    }

    /// The number of sessions: the rows of the table where there is a backing
    /// store, else the sessions in memory that are live at `now`.
    pub fn count<P: DatabasePool>(&self, store: &SessionStore<P>, now: i64) -> (total: Result<
        i64,
        SessionError,
    >)
        ensures
            match total {
                Ok(n) => n == store@.session_count(now),
                Err(error) => error is PersistenceUnavailable && store@.persistent,
            },
            !store@.persistent ==> total is Ok,
    {
        store.count_sessions(now)
    }

    /// The identifier of the session.
    pub fn get_session_id(&self) -> (id: SessionID)
        ensures
            id@ == self@,
    {
        self.id
    }
}

} // verus!
