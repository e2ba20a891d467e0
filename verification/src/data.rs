//! The state of one session: keyed data, expiry and lifecycle flags.

use vstd::prelude::*;
use vstd::bytes::{spec_u64_from_le_bytes, u64_to_le_bytes};
use vstd::slice::slice_index_get;
use vstd::utf8::encode_utf8;
use crate::codec::{
    decoded, lemma_pairs_bytes_push, lemma_record_round_trip, lengths_fit, pairs_bytes, put_text,
    read_entries, record_bytes, take_number, take_text, RecordModel,
};

verus! {

/// The instant at which a lifespan of `lifespan` seconds that starts at `now`
/// ends, capped at the largest representable instant.
pub open spec fn deadline(now: i64, lifespan: u32) -> i64 {
    if now + lifespan > i64::MAX {
        i64::MAX
    } else {
        (now + lifespan) as i64
    }
}

/// Computes [`deadline`].
pub fn deadline_after(now: i64, lifespan: u32) -> (end: i64)
    ensures
        end == deadline(now, lifespan),
{
    let span: i64 = lifespan as i64;
    if now > i64::MAX - span {
        i64::MAX
    } else {
        now + span
    }
}

/// What a session holds, as a mathematical value.
pub struct DataModel {
    /// The keyed data: each key with its encoded value.
    pub entries: Map<Seq<char>, Seq<char>>,
    /// The instant after which the session may be purged.
    pub expiry: i64,
    /// Whether the long-term lifespan applies.
    pub longterm: bool,
    /// Whether the session may be written to the backing store.
    pub storable: bool,
    /// Whether the session is marked for removal at the next sweep.
    pub pending_destroy: bool,
    /// Whether the session has changes that the backing store has not seen.
    pub dirty: bool,
    /// The instant of the latest access.
    pub last_seen: i64,
}

impl DataModel {
    /// A new, empty session that was first seen at `now` and ends at `expiry`.
    pub open spec fn fresh(expiry: i64, now: i64) -> DataModel {
        DataModel {
            entries: Map::empty(),
            expiry,
            longterm: false,
            storable: true,
            pending_destroy: false,
            dirty: false,
            last_seen: now,
        }
    }

    /// A session as it comes back from the backing store at `now`.
    pub open spec fn restored(
        entries: Map<Seq<char>, Seq<char>>,
        longterm: bool,
        expiry: i64,
        now: i64,
    ) -> DataModel {
        DataModel {
            entries,
            expiry,
            longterm,
            storable: true,
            pending_destroy: false,
            dirty: false,
            last_seen: now,
        }
    }

    /// What the backing store keeps of the session besides its expiry.
    pub open spec fn record(self) -> RecordModel {
        RecordModel { entries: self.entries, longterm: self.longterm }
    }

    /// The value under `key`, if there is one.
    pub open spec fn lookup(self, key: Seq<char>) -> Option<Seq<char>> {
        if self.entries.contains_key(key) {
            Some(self.entries[key])
        } else {
            None
        }
    }

    /// The session after an access at `now`.
    pub open spec fn touched(self, now: i64) -> DataModel {
        DataModel { last_seen: now, ..self }
    }

    /// The session after `value` was stored under `key`.
    pub open spec fn with_entry(self, key: Seq<char>, value: Seq<char>) -> DataModel {
        DataModel { entries: self.entries.insert(key, value), dirty: true, ..self }
    }

    /// The session after `key` was deleted.
    pub open spec fn without_entry(self, key: Seq<char>) -> DataModel {
        DataModel { entries: self.entries.remove(key), dirty: true, ..self }
    }

    /// The session after all of its entries were deleted.
    pub open spec fn cleared(self) -> DataModel {
        DataModel { entries: Map::empty(), dirty: true, ..self }
    }

    /// The session after it was marked for removal.
    pub open spec fn doomed(self) -> DataModel {
        DataModel { pending_destroy: true, ..self }
    }

    /// The session after its long-term flag was set to `longterm` and its
    /// expiry was moved to `expiry`.
    pub open spec fn with_longterm(self, longterm: bool, expiry: i64) -> DataModel {
        DataModel { longterm, expiry, dirty: true, ..self }
    }

    /// The session after its storable flag was set to `storable`. A session
    /// that becomes storable is due for the next write to the backing store.
    pub open spec fn with_storable(self, storable: bool) -> DataModel {
        DataModel { storable, dirty: self.dirty || storable, ..self }
    }

    /// The session after it was written to the backing store.
    pub open spec fn saved(self) -> DataModel {
        DataModel { dirty: false, ..self }
    }

    /// The session as it stands under a new identifier.
    pub open spec fn moved(self) -> DataModel {
        DataModel { dirty: true, ..self }
    }

    /// Whether the expiry has passed at `now`.
    pub open spec fn expired(self, now: i64) -> bool {
        self.expiry < now
    }

    /// Whether the session counts as live at `now`.
    pub open spec fn live(self, now: i64) -> bool {
        !self.pending_destroy && !self.expired(now)
    }

    /// Whether a sweep at `now` removes the session: it is marked for removal,
    /// or it has expired and was not accessed at or after `now`.
    pub open spec fn purgeable(self, now: i64) -> bool {
        self.pending_destroy || (self.expired(now) && self.last_seen < now)
    }

    /// Whether a sweep at `now` writes the session to the backing store.
    pub open spec fn due_for_save(self, now: i64) -> bool {
        !self.purgeable(now) && self.storable && self.dirty && !self.expired(now)
    }
}

/// The map that a list of pairs stands for: each key with the value of its
/// last occurrence.
pub open spec fn pairs_map(pairs: Seq<(String, String)>) -> Map<Seq<char>, Seq<char>>
    decreases pairs.len(),
{
    if pairs.len() == 0 {
        Map::empty()
    } else {
        pairs_map(pairs.drop_last()).insert(pairs.last().0@, pairs.last().1@)
    }
}

/// Whether no key occurs twice in a list of pairs.
pub open spec fn distinct_keys(pairs: Seq<(String, String)>) -> bool {
    forall|i: int, j: int| 0 <= i < j < pairs.len() ==> pairs[i].0@ != pairs[j].0@
}

/// Whether `key` occurs in a list of pairs.
pub open spec fn has_key(pairs: Seq<(String, String)>, key: Seq<char>) -> bool {
    exists|i: int| 0 <= i < pairs.len() && (#[trigger] pairs[i]).0@ == key
}

/// The keys of `pairs_map(pairs)` are the keys that occur in `pairs`.
pub proof fn lemma_pairs_map_keys(pairs: Seq<(String, String)>)
    ensures
        forall|key: Seq<char>| #[trigger]
            pairs_map(pairs).contains_key(key) <==> has_key(pairs, key),
    decreases pairs.len(),
{
    if pairs.len() > 0 {
        let front = pairs.drop_last();
        lemma_pairs_map_keys(front);
        assert forall|key: Seq<char>| #[trigger]
            pairs_map(pairs).contains_key(key) <==> has_key(pairs, key) by {
            assert(pairs_map(front).contains_key(key) <==> has_key(front, key));
            if has_key(pairs, key) {
                let i = choose|i: int| 0 <= i < pairs.len() && (#[trigger] pairs[i]).0@ == key;
                if i < pairs.len() - 1 {
                    assert(front[i] == pairs[i]);
                }
            }
        }
    }
}

/// Where no key occurs twice, `pairs_map(pairs)` gives each key the value
/// that stands beside it.
pub proof fn lemma_pairs_map_values(pairs: Seq<(String, String)>)
    requires
        distinct_keys(pairs),
    ensures
        forall|i: int|
            0 <= i < pairs.len() ==> pairs_map(pairs).contains_key(#[trigger] pairs[i].0@)
                && pairs_map(pairs)[pairs[i].0@] == pairs[i].1@,
    decreases pairs.len(),
{
    if pairs.len() > 0 {
        let front = pairs.drop_last();
        lemma_pairs_map_values(front);
        assert forall|i: int| 0 <= i < pairs.len() implies pairs_map(pairs).contains_key(
            #[trigger] pairs[i].0@,
        ) && pairs_map(pairs)[pairs[i].0@] == pairs[i].1@ by {
            if i < pairs.len() - 1 {
                assert(front[i] == pairs[i]);
            }
        }
    }
}

/// Deleting the pair at `at` from a list without repeated keys deletes its
/// key from the map.
pub proof fn lemma_pairs_map_remove(pairs: Seq<(String, String)>, at: int)
    requires
        distinct_keys(pairs),
        0 <= at < pairs.len(),
    ensures
        distinct_keys(pairs.remove(at)),
        pairs_map(pairs.remove(at)) == pairs_map(pairs).remove(pairs[at].0@),
{
    let rest = pairs.remove(at);
    lemma_pairs_map_keys(pairs);
    lemma_pairs_map_keys(rest);
    lemma_pairs_map_values(pairs);
    lemma_pairs_map_values(rest);
    let left = pairs_map(rest);
    let right = pairs_map(pairs).remove(pairs[at].0@);
    assert forall|key: Seq<char>| left.contains_key(key) <==> right.contains_key(key) by {
        if right.contains_key(key) {
            let a = choose|a: int| 0 <= a < pairs.len() && (#[trigger] pairs[a]).0@ == key;
            let i = if a < at { a } else { a - 1 };
            assert(rest[i] == pairs[a]);
        }
    }
}

/// The state of one session.
pub struct SessionData {
    entries: Vec<(String, String)>,
    expiry: i64,
    longterm: bool,
    storable: bool,
    pending_destroy: bool,
    dirty: bool,
    last_seen: i64,
}

impl View for SessionData {
    type V = DataModel;

    closed spec fn view(&self) -> DataModel {
        DataModel {
            entries: pairs_map(self.entries@),
            expiry: self.expiry,
            longterm: self.longterm,
            storable: self.storable,
            pending_destroy: self.pending_destroy,
            dirty: self.dirty,
            last_seen: self.last_seen,
        }
    }
}

impl SessionData {
    /// The invariant of a session: no key occurs twice among the entries.
    #[verifier::type_invariant]
    spec fn well_formed(self) -> bool {
        distinct_keys(self.entries@)
    }

    /// A new, empty session that is first seen at `now` and ends at `expiry`.
    pub fn new(expiry: i64, now: i64) -> (data: SessionData)
        ensures
            data@ == DataModel::fresh(expiry, now),
    {
        SessionData {
            entries: Vec::new(),
            expiry,
            longterm: false,
            storable: true,
            pending_destroy: false,
            dirty: false,
            last_seen: now,
        }
    }

    /// The place of `key` among the entries.
    fn find(&self, key: &String) -> (at: Option<usize>)
        ensures
            match at {
                Some(i) => i < self.entries@.len() && self.entries@[i as int].0@ == key@,
                None => forall|i: int| 0 <= i < self.entries@.len() ==> self.entries@[i].0@ != key@,
            },
    {
        let mut i: usize = 0;
        while i < self.entries.len()
            invariant
                i <= self.entries@.len(),
                forall|j: int| 0 <= j < i ==> self.entries@[j].0@ != key@,
            decreases self.entries@.len() - i,
        {
            if self.entries[i].0 == *key {
                return Some(i);
            }
            i += 1;
        }
        None
    }

    /// The value under `key`, if there is one.
    pub fn get(&self, key: &str) -> (value: Option<String>)
        ensures
            match value {
                Some(text) => self@.lookup(key@) == Some(text@),
                None => self@.lookup(key@).is_none(),
            },
    {
        proof {
            use_type_invariant(self);
            lemma_pairs_map_keys(self.entries@);
            lemma_pairs_map_values(self.entries@);
        }
        let owned = key.to_owned();
        match self.find(&owned) {
            Some(i) => Some(self.entries[i].1.clone()),
            None => None,
        }
    }

    /// Stores `value` under `key`, in place of any value that was there.
    pub fn set(&mut self, key: &str, value: String)
        ensures
            final(self)@ == old(self)@.with_entry(key@, value@),
    {
        self.put(key.to_owned(), value);
    }

    /// Stores `value` under the owned `key`.
    fn put(&mut self, key: String, value: String)
        ensures
            final(self)@ == old(self)@.with_entry(key@, value@),
    {
        proof {
            use_type_invariant(&*self);
        }
        let found = self.find(&key);
        let mut entries: Vec<(String, String)> = Vec::new();
        std::mem::swap(&mut self.entries, &mut entries);
        if let Some(i) = found {
            proof {
                lemma_pairs_map_remove(entries@, i as int);
            }
            entries.remove(i);
        }
        proof {
            assert(entries@.push((key, value)).drop_last() =~= entries@);
        }
        entries.push((key, value));
        self.entries = entries;
        self.dirty = true;
        proof {
            assert(self@.entries =~= old(self)@.entries.insert(key@, value@));
        }
    }

    /// The record of the session: what [`decoded`] reads back as the entries
    /// and the long-term flag.
    pub fn encode(&self) -> (bytes: Vec<u8>)
        ensures
            decoded(bytes@) == Some(self@.record()),
    {
        let count = self.entries.len();
        let mut out: Vec<u8> = Vec::new();
        out.push(if self.longterm { 1u8 } else { 0u8 });
        let mut head = u64_to_le_bytes(count as u64);
        out.append(&mut head);
        let ghost start = out@;
        let mut i: usize = 0;
        while i < count
            invariant
                i <= count,
                count == self.entries@.len(),
                out@ == start + pairs_bytes(self.entries@.take(i as int)),
                lengths_fit(self.entries@.take(i as int)),
            decreases count - i,
        {
            let ghost done = self.entries@.take(i as int);
            put_text(&mut out, self.entries[i].0.as_str());
            put_text(&mut out, self.entries[i].1.as_str());
            proof {
                let pair = self.entries@[i as int];
                lemma_pairs_bytes_push(done, pair);
                assert(self.entries@.take(i + 1) =~= done.push(pair));
            }
            i += 1;
        }
        proof {
            assert(self.entries@.take(count as int) =~= self.entries@);
            lemma_record_round_trip(self.entries@, self.longterm);
        }
        out
    }

    /// Reads a record back into a session that ends at `expiry` and is seen at
    /// `now`; `None` where the bytes are not a record.
    pub fn decode(bytes: &[u8], expiry: i64, now: i64) -> (data: Option<SessionData>)
        ensures
            match decoded(bytes@) {
                Some(record) => data matches Some(d) && d@ == DataModel::restored(
                    record.entries,
                    record.longterm,
                    expiry,
                    now,
                ),
                None => data is None,
            },
    {
        let total = bytes.len();
        if total < 9 {
            return None;
        }
        let flag = *slice_index_get(bytes, 0);
        if flag > 1 {
            return None;
        }
        let count = take_number(bytes, 1);
        let mut data = SessionData {
            entries: Vec::new(),
            expiry,
            longterm: flag == 1,
            storable: true,
            pending_destroy: false,
            dirty: false,
            last_seen: now,
        };
        let mut at: usize = 9;
        let mut left: u64 = count;
        while left > 0
            invariant
                9 <= at <= total,
                total == bytes@.len(),
                bytes@[0] == flag,
                flag <= 1,
                count == spec_u64_from_le_bytes(bytes@.subrange(1, 9)),
                read_entries(bytes@.subrange(9, total as int), count as nat, Map::empty())
                    == read_entries(
                    bytes@.subrange(at as int, total as int),
                    left as nat,
                    data@.entries,
                ),
                data@.expiry == expiry,
                data@.longterm == (flag == 1),
                data@.storable,
                !data@.pending_destroy,
                data@.last_seen == now,
            decreases left,
        {
            match take_text(bytes, at) {
                None => {
                    return None;
                },
                Some((key, next)) => match take_text(bytes, next) {
                    None => {
                        return None;
                    },
                    Some((value, after)) => {
                        data.put(key, value);
                        at = after;
                        left -= 1;
                    },
                },
            }
        }
        if at != total {
            return None;
        }
        data.mark_saved();
        Some(data)
    }

    /// Deletes `key`; nothing else changes where it is absent.
    pub fn remove(&mut self, key: &str)
        ensures
            final(self)@ == old(self)@.without_entry(key@),
    {
        let _ = self.take(key);
    }

    /// Deletes `key` and hands out the value that stood under it.
    pub fn take(&mut self, key: &str) -> (value: Option<String>)
        ensures
            final(self)@ == old(self)@.without_entry(key@),
            match value {
                Some(text) => old(self)@.lookup(key@) == Some(text@),
                None => old(self)@.lookup(key@).is_none(),
            },
    {
        proof {
            use_type_invariant(&*self);
            lemma_pairs_map_keys(self.entries@);
            lemma_pairs_map_values(self.entries@);
        }
        let owned = key.to_owned();
        let found = self.find(&owned);
        self.dirty = true;
        match found {
            Some(i) => {
                let mut entries: Vec<(String, String)> = Vec::new();
                std::mem::swap(&mut self.entries, &mut entries);
                proof {
                    lemma_pairs_map_remove(entries@, i as int);
                }
                let pair = entries.remove(i);
                self.entries = entries;
                Some(pair.1)
            },
            None => {
                proof {
                    assert(self@.entries =~= old(self)@.entries.remove(key@));
                }
                None
            },
        }
    }

    /// Deletes every entry. Expiry and flags stay as they are.
    pub fn clear(&mut self)
        ensures
            final(self)@ == old(self)@.cleared(),
    {
        self.entries = Vec::new();
        self.dirty = true;
    }

    /// Records an access at `now`.
    pub fn touch(&mut self, now: i64)
        ensures
            final(self)@ == old(self)@.touched(now),
    {
        proof {
            use_type_invariant(&*self);
        }
        self.last_seen = now;
    }

    /// Marks the session for removal at the next sweep.
    pub fn doom(&mut self)
        ensures
            final(self)@ == old(self)@.doomed(),
    {
        proof {
            use_type_invariant(&*self);
        }
        self.pending_destroy = true;
    }

    /// Sets the long-term flag and moves the expiry to `expiry`.
    pub fn set_longterm(&mut self, longterm: bool, expiry: i64)
        ensures
            final(self)@ == old(self)@.with_longterm(longterm, expiry),
    {
        proof {
            use_type_invariant(&*self);
        }
        self.longterm = longterm;
        self.expiry = expiry;
        self.dirty = true;
    }

    /// Sets the storable flag.
    pub fn set_storable(&mut self, storable: bool)
        ensures
            final(self)@ == old(self)@.with_storable(storable),
    {
        proof {
            use_type_invariant(&*self);
        }
        self.storable = storable;
        if storable {
            self.dirty = true;
        }
    }

    /// Records that the backing store holds the session as it stands.
    pub fn mark_saved(&mut self)
        ensures
            final(self)@ == old(self)@.saved(),
    {
        proof {
            use_type_invariant(&*self);
        }
        self.dirty = false;
    }

    /// Records that the session stands under a new identifier.
    pub fn mark_moved(&mut self)
        ensures
            final(self)@ == old(self)@.moved(),
    {
        proof {
            use_type_invariant(&*self);
        }
        self.dirty = true;
    }

    /// The instant after which the session may be purged.
    pub fn expiry(&self) -> (expiry: i64)
        ensures
            expiry == self@.expiry,
    {
        self.expiry
    }

    /// Whether the long-term lifespan applies.
    pub fn is_longterm(&self) -> (longterm: bool)
        ensures
            longterm == self@.longterm,
    {
        self.longterm
    }

    /// Whether the session may be written to the backing store.
    pub fn is_storable(&self) -> (storable: bool)
        ensures
            storable == self@.storable,
    {
        self.storable
    }

    /// Whether the session is marked for removal.
    pub fn is_pending_destroy(&self) -> (pending: bool)
        ensures
            pending == self@.pending_destroy,
    {
        self.pending_destroy
    }

    /// Whether the session has changes that the backing store has not seen.
    pub fn is_dirty(&self) -> (dirty: bool)
        ensures
            dirty == self@.dirty,
    {
        self.dirty
    }

    /// The instant of the latest access.
    pub fn last_seen(&self) -> (seen: i64)
        ensures
            seen == self@.last_seen,
    {
        self.last_seen
    }

    /// Whether the session counts as live at `now`.
    pub fn is_live(&self, now: i64) -> (live: bool)
        ensures
            live == self@.live(now),
    {
        !self.pending_destroy && !(self.expiry < now)
    }

    /// Whether a sweep at `now` removes the session.
    pub fn is_purgeable(&self, now: i64) -> (purgeable: bool)
        ensures
            purgeable == self@.purgeable(now),
    {
        self.pending_destroy || (self.expiry < now && self.last_seen < now)
    }

    /// Whether a sweep at `now` writes the session to the backing store.
    pub fn is_due_for_save(&self, now: i64) -> (due: bool)
        ensures
            due == self@.due_for_save(now),
    {
        !self.is_purgeable(now) && self.storable && self.dirty && !(self.expiry < now)
    }
}

} // verus!
