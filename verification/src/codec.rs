//! The byte form of a session as the backing store keeps it.
//!
//! A record is one flag byte (1 where the session is long-term, else 0), the
//! number of entries, and the entries in turn, each a key and a value. Every
//! number is eight bytes, least significant first; every text is its length in
//! bytes followed by its UTF-8 bytes. Nothing may follow the last entry.

use vstd::prelude::*;
use vstd::bytes::*;
use vstd::slice::*;
use vstd::string::*;
use vstd::utf8::*;
use crate::data::pairs_map;

verus! {

/// What a record holds.
pub struct RecordModel {
    /// The keyed data.
    pub entries: Map<Seq<char>, Seq<char>>,
    /// Whether the session is long-term.
    pub longterm: bool,
}

/// The bytes of one text: its length, then its UTF-8 bytes.
pub open spec fn text_bytes(text: Seq<char>) -> Seq<u8> {
    spec_u64_to_le_bytes(encode_utf8(text).len() as u64) + encode_utf8(text)
}

/// Reads one text from the front of `bytes`: the text and what follows it, or
/// `None` where the bytes are too few or are not UTF-8.
pub open spec fn read_text(bytes: Seq<u8>) -> Option<(Seq<char>, Seq<u8>)> {
    if bytes.len() < 8 {
        None
    } else {
        let length = spec_u64_from_le_bytes(bytes.subrange(0, 8));
        if bytes.len() - 8 < length {
            None
        } else {
            let body = bytes.subrange(8, 8 + length);
            if valid_utf8(body) {
                Some((decode_utf8(body), bytes.subrange(8 + length, bytes.len() as int)))
            } else {
                None
            }
        }
    }
}

/// Reads `count` entries from `bytes` into `found`, a later entry replacing an
/// earlier one with the same key. `None` where an entry cannot be read or
/// bytes are left over.
pub open spec fn read_entries(
    bytes: Seq<u8>,
    count: nat,
    found: Map<Seq<char>, Seq<char>>,
) -> Option<Map<Seq<char>, Seq<char>>>
    decreases count,
{
    if count == 0 {
        if bytes.len() == 0 {
            Some(found)
        } else {
            None
        }
    } else {
        match read_text(bytes) {
            None => None,
            Some((key, after_key)) => match read_text(after_key) {
                None => None,
                Some((value, rest)) => read_entries(
                    rest,
                    (count - 1) as nat,
                    found.insert(key, value),
                ),
            },
        }
    }
}

/// What a record's bytes hold, or `None` where they are not a record.
pub open spec fn decoded(bytes: Seq<u8>) -> Option<RecordModel> {
    if bytes.len() < 9 || bytes[0] > 1 {
        None
    } else {
        match read_entries(
            bytes.subrange(9, bytes.len() as int),
            spec_u64_from_le_bytes(bytes.subrange(1, 9)) as nat,
            Map::empty(),
        ) {
            Some(entries) => Some(RecordModel { entries, longterm: bytes[0] == 1 }),
            None => None,
        }
    }
}

/// The bytes of a list of entries, one after the other.
pub open spec fn pairs_bytes(pairs: Seq<(String, String)>) -> Seq<u8>
    decreases pairs.len(),
{
    if pairs.len() == 0 {
        Seq::empty()
    } else {
        text_bytes(pairs[0].0@) + text_bytes(pairs[0].1@) + pairs_bytes(pairs.drop_first())
    }
}

/// The record of a list of entries and a long-term flag.
pub open spec fn record_bytes(pairs: Seq<(String, String)>, longterm: bool) -> Seq<u8> {
    seq![if longterm { 1u8 } else { 0u8 }] + spec_u64_to_le_bytes(pairs.len() as u64)
        + pairs_bytes(pairs)
}

/// Whether the byte length of every key and value fits in 64 bits.
pub open spec fn lengths_fit(pairs: Seq<(String, String)>) -> bool {
    forall|i: int|
        0 <= i < pairs.len() ==> encode_utf8((#[trigger] pairs[i]).0@).len() <= u64::MAX
            && encode_utf8(pairs[i].1@).len() <= u64::MAX
}

/// `found` with the entries of `pairs` stored into it in turn.
pub open spec fn fold_pairs(
    found: Map<Seq<char>, Seq<char>>,
    pairs: Seq<(String, String)>,
) -> Map<Seq<char>, Seq<char>>
    decreases pairs.len(),
{
    if pairs.len() == 0 {
        found
    } else {
        fold_pairs(found.insert(pairs[0].0@, pairs[0].1@), pairs.drop_first())
    }
}

/// A text that was written is read back, with what followed it.
pub proof fn lemma_read_text(text: Seq<char>, rest: Seq<u8>)
    requires
        encode_utf8(text).len() <= u64::MAX,
    ensures
        read_text(text_bytes(text) + rest) == Some((text, rest)),
{
    lemma_auto_spec_u64_to_from_le_bytes();
    encode_utf8_valid_utf8(text);
    encode_utf8_decode_utf8(text);
    let body = encode_utf8(text);
    let length = body.len() as u64;
    let head = spec_u64_to_le_bytes(length);
    let all = text_bytes(text) + rest;
    assert(all.subrange(0, 8) =~= head);
    assert(all.subrange(8, 8 + length) =~= body);
}

/// Storing one more entry at the end is the last step of the fold.
pub proof fn lemma_fold_pairs_last(found: Map<Seq<char>, Seq<char>>, pairs: Seq<(String, String)>)
    requires
        pairs.len() > 0,
    ensures
        fold_pairs(found, pairs) == fold_pairs(found, pairs.drop_last()).insert(
            pairs.last().0@,
            pairs.last().1@,
        ),
    decreases pairs.len(),
{
    let first = found.insert(pairs[0].0@, pairs[0].1@);
    let front = pairs.drop_last();
    assert(fold_pairs(found, pairs) == fold_pairs(first, pairs.drop_first()));
    if pairs.len() > 1 {
        let tail = pairs.drop_first();
        lemma_fold_pairs_last(first, tail);
        assert(tail.drop_last() =~= front.drop_first());
    }
}

/// Folding a list into the empty map gives the map that the list stands for.
pub proof fn lemma_fold_pairs_is_map(pairs: Seq<(String, String)>)
    ensures
        fold_pairs(Map::empty(), pairs) == pairs_map(pairs),
    decreases pairs.len(),
{
    if pairs.len() > 0 {
        lemma_fold_pairs_last(Map::empty(), pairs);
        lemma_fold_pairs_is_map(pairs.drop_last());
    }
}

/// The entries that were written are read back in turn.
pub proof fn lemma_read_entries(pairs: Seq<(String, String)>, found: Map<Seq<char>, Seq<char>>)
    requires
        lengths_fit(pairs),
    ensures
        read_entries(pairs_bytes(pairs), pairs.len(), found) == Some(fold_pairs(found, pairs)),
    decreases pairs.len(),
{
    if pairs.len() > 0 {
        let key = pairs[0].0@;
        let value = pairs[0].1@;
        let tail = pairs.drop_first();
        let after_key = text_bytes(value) + pairs_bytes(tail);
        assert(pairs_bytes(pairs) =~= text_bytes(key) + after_key);
        lemma_read_text(key, after_key);
        lemma_read_text(value, pairs_bytes(tail));
        lemma_read_entries(tail, found.insert(key, value));
    }
}

/// One more entry at the end of the list is one more entry at the end of the
/// bytes.
pub proof fn lemma_pairs_bytes_push(pairs: Seq<(String, String)>, pair: (String, String))
    ensures
        pairs_bytes(pairs.push(pair)) == pairs_bytes(pairs) + text_bytes(pair.0@) + text_bytes(
            pair.1@,
        ),
    decreases pairs.len(),
{
    let longer = pairs.push(pair);
    assert(pairs_bytes(longer) == text_bytes(longer[0].0@) + text_bytes(longer[0].1@)
        + pairs_bytes(longer.drop_first()));
    if pairs.len() > 0 {
        lemma_pairs_bytes_push(pairs.drop_first(), pair);
        assert(longer.drop_first() =~= pairs.drop_first().push(pair));
    }
}

/// A record that was written decodes to the entries and the flag that went
/// into it.
pub proof fn lemma_record_round_trip(pairs: Seq<(String, String)>, longterm: bool)
    requires
        lengths_fit(pairs),
        pairs.len() <= u64::MAX,
    ensures
        decoded(record_bytes(pairs, longterm)) == Some(
            RecordModel { entries: pairs_map(pairs), longterm },
        ),
{
    lemma_auto_spec_u64_to_from_le_bytes();
    let bytes = record_bytes(pairs, longterm);
    let count = spec_u64_to_le_bytes(pairs.len() as u64);
    assert(bytes.subrange(1, 9) =~= count);
    assert(bytes.subrange(9, bytes.len() as int) =~= pairs_bytes(pairs));
    lemma_read_entries(pairs, Map::empty());
    lemma_fold_pairs_is_map(pairs);
}

/// Calls `String::from_utf8`, which gives the text of `bytes` where they are
/// valid UTF-8 and an error, here `None`, where they are not.
#[verifier::external_body]
fn text_of_bytes(bytes: Vec<u8>) -> (text: Option<String>)
    ensures
        text is Some <==> valid_utf8(bytes@),
        text matches Some(s) ==> s@ == decode_utf8(bytes@),
{
    match String::from_utf8(bytes) {
        Ok(text) => Some(text),
        Err(_) => None,
    }
}

/// Appends the bytes of `text` to `out`.
pub(crate) fn put_text(out: &mut Vec<u8>, text: &str)
    ensures
        final(out)@ == old(out)@ + text_bytes(text@),
        encode_utf8(text@).len() <= u64::MAX,
{
    let body = text.as_bytes();
    let length = body.len();
    let mut head = u64_to_le_bytes(length as u64);
    out.append(&mut head);
    let mut tail = slice_to_vec(body);
    out.append(&mut tail);
}

/// Reads the eight-byte number that starts at `at`.
pub(crate) fn take_number(bytes: &[u8], at: usize) -> (number: u64)
    requires
        at + 8 <= bytes@.len() <= usize::MAX,
    ensures
        number == spec_u64_from_le_bytes(bytes@.subrange(at as int, at + 8)),
{
    u64_from_le_bytes(slice_subrange(bytes, at, at + 8))
}

/// Reads the text that starts at `at`: the text and the place after it, or
/// `None` where [`read_text`] finds none.
pub(crate) fn take_text(bytes: &[u8], at: usize) -> (found: Option<(String, usize)>)
    requires
        at <= bytes@.len(),
    ensures
        match read_text(bytes@.subrange(at as int, bytes@.len() as int)) {
            Some((text, rest)) => found matches Some((s, next)) && s@ == text && at <= next
                <= bytes@.len() && rest == bytes@.subrange(next as int, bytes@.len() as int),
            None => found is None,
        },
{
    let ghost tail = bytes@.subrange(at as int, bytes@.len() as int);
    let total = bytes.len();
    if total - at < 8 {
        return None;
    }
    let length = take_number(bytes, at);
    proof {
        assert(tail.subrange(0, 8) =~= bytes@.subrange(at as int, at + 8));
    }
    if ((total - at - 8) as u64) < length {
        return None;
    }
    let start = at + 8;
    let end = start + length as usize;
    let body = slice_to_vec(slice_subrange(bytes, start, end));
    proof {
        assert(tail.subrange(8, 8 + length) =~= body@);
    }
    match text_of_bytes(body) {
        Some(text) => Some((text, end)),
        None => None,
    }
}

} // verus!
