//! Session identifiers: 128-bit values with a canonical textual form.

use vstd::prelude::*;
use uuid::Uuid;

verus! {

/// The value that `Uuid::parse_str` reads from `text`, or `None` where it
/// rejects the text.
pub uninterp spec fn parsed_uuid(text: Seq<char>) -> Option<u128>;

/// The digit of `value` at place `place` of its 32 hexadecimal digits, the
/// most significant first.
pub open spec fn hex_digit(value: u128, place: int) -> u128 {
    (value >> ((4 * (31 - place)) as u128)) & 0xf
}

/// The lower-case character of a hexadecimal digit.
pub open spec fn hex_char(digit: u128) -> char {
    if digit < 10 {
        ((48 + digit) as u8) as char
    } else {
        ((87 + digit) as u8) as char
    }
}

/// The number of hyphens that stand before place `at` of the canonical text.
pub open spec fn hyphens_before(at: int) -> int {
    if at < 8 {
        0
    } else if at < 13 {
        1
    } else if at < 18 {
        2
    } else if at < 23 {
        3
    } else {
        4
    }
}

/// The canonical text of `value`, which `Uuid`'s `Display` writes: its 32
/// hexadecimal digits in lower case, in groups of 8, 4, 4, 4 and 12 with a
/// hyphen between two groups.
pub open spec fn uuid_text(value: u128) -> Seq<char> {
    Seq::new(
        36,
        |at: int|
            if at == 8 || at == 13 || at == 18 || at == 23 {
                '-'
            } else {
                hex_char(hex_digit(value, at - hyphens_before(at)))
            },
    )
}

/// Whether `value` carries the version and variant bits of a random
/// (version 4) identifier.
pub open spec fn is_random_uuid(value: u128) -> bool {
    value & 0x0000_0000_0000_f000_c000_0000_0000_0000u128
        == 0x0000_0000_0000_4000_8000_0000_0000_0000u128
}

/// Calls `Uuid::new_v4` and hands out the value as a 128-bit integer. The value
/// is drawn at random, so the contract states only what holds of every draw:
/// the version and variant bits that `new_v4` always sets. `new_v4` panics
/// where the operating system has no random bytes to give.
#[verifier::external_body]
fn random_uuid() -> (value: u128)
    ensures
        is_random_uuid(value),
{
    Uuid::new_v4().as_u128()
}

/// Calls `Uuid::parse_str`. The result is the named function of the text: the
/// parsed value where the text is accepted, `None` where it is rejected.
#[verifier::external_body]
fn parse_uuid(text: &str) -> (value: Option<u128>)
    ensures
        value == parsed_uuid(text@),
{
    match Uuid::parse_str(text) {
        Ok(uuid) => Some(uuid.as_u128()),
        Err(_) => None,
    }
}

/// Formats `value` with `Uuid`'s `Display`. The text is the canonical form:
/// 36 characters, the digits in lower case and the hyphens in their places.
/// `Uuid::parse_str` reads the same value back from it.
#[verifier::external_body]
fn render_uuid(value: u128) -> (text: String)
    ensures
        text@ == uuid_text(value),
        parsed_uuid(text@) == Some(value),
{
    Uuid::from_u128(value).to_string()
}

/// An opaque token that identifies one session.
#[derive(Clone, Copy, Debug, PartialEq, Eq, Hash, Structural)]
pub struct SessionID(pub u128);

impl View for SessionID {
    type V = u128;

    open spec fn view(&self) -> u128 {
        self.0
    }
}

/// The values of the identifiers of a list.
pub open spec fn ids_of(list: Seq<SessionID>) -> Set<u128> {
    Set::new(|value: u128| list.contains(SessionID(value)))
}

/// One more identifier at the end of a list is one more value among its
/// values.
pub proof fn lemma_ids_of_push(list: Seq<SessionID>, id: SessionID)
    ensures
        ids_of(list.push(id)) == ids_of(list).insert(id@),
{
    let more = list.push(id);
    assert forall|value: u128| ids_of(more).contains(value) <==> ids_of(list).insert(
        id@,
    ).contains(value) by {
        let wanted = SessionID(value);
        if list.contains(wanted) {
            let i = choose|i: int| 0 <= i < list.len() && list[i] == wanted;
            assert(more[i] == wanted);
        }
        if value == id@ {
            assert(more[list.len() as int] == wanted);
        }
        if more.contains(wanted) {
            let i = choose|i: int| 0 <= i < more.len() && more[i] == wanted;
            if i < list.len() {
                assert(list[i] == wanted);
            }
        }
    }
}

impl SessionID {
    /// Wraps a 128-bit value.
    pub fn from_u128(value: u128) -> (id: SessionID)
        ensures
            id@ == value,
    {
        SessionID(value)
    }

    /// The 128-bit value of the identifier.
    pub fn as_u128(&self) -> (value: u128)
        ensures
            value == self@,
    {
        self.0
    }

    /// Draws a fresh random identifier.
    pub fn random() -> (id: SessionID)
        ensures
            is_random_uuid(id@),
    {
        SessionID(random_uuid())
    }

    /// Reads an identifier from its textual form. Any text that the parser
    /// accepts yields an identifier; the canonical text of an identifier
    /// always yields that identifier (see [`SessionID::inner`]).
    pub fn parse(text: &str) -> (id: Option<SessionID>)
        ensures
            id == Self::parsed(text@),
    {
        match parse_uuid(text) {
            Some(value) => Some(SessionID(value)),
            None => None,
        }
    }

    /// The identifier that a text denotes, if any.
    pub open spec fn parsed(text: Seq<char>) -> Option<SessionID> {
        match parsed_uuid(text) {
            Some(value) => Some(SessionID(value)),
            None => None,
        }
    }

    /// The canonical text of the identifier, for transport and as a
    /// persistence key. Parsing it gives the identifier back.
    pub fn inner(&self) -> (text: String)
        ensures
            text@ == uuid_text(self@),
            Self::parsed(text@) == Some(*self),
    {
        render_uuid(self.0)
    }
}

} // verus!
