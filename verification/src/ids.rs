//! Identifiers: UUIDs carried as their 128-bit value, and the agent-session
//! identifier built on them.
use vstd::prelude::*;

verus! {

/// A UUID, held as its 128-bit big-endian value.
#[derive(Clone, Copy, Debug, PartialEq, Eq, Structural, Hash)]
pub struct Uuid {
    bits: u128,
}

/// The lower-case hexadecimal digit for `d < 16`.
pub open spec fn hex_digit(d: int) -> char {
    if d < 10 {
        (('0' as u32) + d) as char
    } else {
        (('a' as u32) + d - 10) as char
    }
}

/// The `k`-th hexadecimal digit of `x`, counting from the most significant (`0 <= k < 32`).
pub open spec fn nibble(x: u128, k: int) -> int {
    ((x >> ((124 - 4 * k) as u128)) & 0xfu128) as int
}

/// Which digit of the value stands at position `i` of the hyphenated text.
pub open spec fn digit_index(i: int) -> int {
    if i < 8 {
        i
    } else if i < 13 {
        i - 1
    } else if i < 18 {
        i - 2
    } else if i < 23 {
        i - 3
    } else {
        i - 4
    }
}

/// Position `i` of the hyphenated text holds a hyphen.
pub open spec fn is_hyphen_position(i: int) -> bool {
    i == 8 || i == 13 || i == 18 || i == 23
}

/// The hyphenated lower-case text of a UUID, `xxxxxxxx-xxxx-xxxx-xxxx-xxxxxxxxxxxx`.
pub open spec fn uuid_text(x: u128) -> Seq<char> {
    Seq::new(
        36,
        |i: int|
            if is_hyphen_position(i) {
                '-'
            } else {
                hex_digit(nibble(x, digit_index(i)))
            },
    )
}

/// The text of an optional UUID.
pub open spec fn uuid_text_opt(o: Option<Uuid>) -> Option<Seq<char>> {
    match o {
        Some(u) => Some(uuid_text(u.value())),
        None => None,
    }
}

/// What `uuid::Uuid::parse_str` makes of a text: the value, or `None` where it refuses it.
pub uninterp spec fn uuid_parse(text: Seq<char>) -> Option<u128>;

impl Uuid {
    /// The 128-bit value.
    pub closed spec fn value(self) -> u128 {
        self.bits
    }

    /// The UUID with the given 128-bit value.
    pub fn from_u128(v: u128) -> (r: Uuid)
        ensures
            r.value() == v,
    {
        Uuid { bits: v }
    }

    /// The 128-bit value.
    pub fn as_u128(&self) -> (r: u128)
        ensures
            r == self.value(),
    {
        self.bits
    }

    /// The hyphenated lower-case text of the UUID; parsing it gives the UUID back.
    pub fn to_string(&self) -> (r: String)
        ensures
            r@ == uuid_text(self.value()),
            uuid_parse(r@) == Some(self.value()),
    {
        format_uuid(self.bits)
    }

    /// The UUID a text names, or `None` where the text is not a UUID.
    pub fn parse_str(s: &str) -> (r: Option<Uuid>)
        ensures
            r is Some <==> uuid_parse(s@) is Some,
            r matches Some(u) ==> uuid_parse(s@) == Some(u.value()),
    {
        match parse_uuid(s) {
            Some(bits) => Some(Uuid { bits }),
            None => None,
        }
    }

    /// A fresh version-7 UUID from the current time and random bits.
    pub(crate) fn now_v7() -> (r: Uuid)
        ensures
            (r.value() >> 76u128) & 0xfu128 == 7,
    {
        Uuid { bits: new_v7_bits() }
    }
}

/// `uuid::Uuid`'s `Display` (its `to_string`) of the UUID with value `bits`:
/// the hyphenated lower-case text of the value; `uuid::Uuid::parse_str` reads
/// that text back to the same value.
#[verifier::external_body]
fn format_uuid(bits: u128) -> (r: String)
    ensures
        r@ == uuid_text(bits),
        uuid_parse(r@) == Some(bits),
{
    uuid::Uuid::from_u128(bits).to_string()
}

/// `uuid::Uuid::parse_str`: the value of the UUID, or `None` where it returns
/// an error.
#[verifier::external_body]
fn parse_uuid(s: &str) -> (r: Option<u128>)
    ensures
        r == uuid_parse(s@),
{
    uuid::Uuid::parse_str(s).ok().map(|u| u.as_u128())
}

/// `uuid::Uuid::now_v7`: a version-7 UUID from the current time and random
/// bits. Which value comes back is not stated, only its version digit.
#[verifier::external_body]
fn new_v7_bits() -> (r: u128)
    ensures
        (r >> 76u128) & 0xfu128 == 7,
{
    uuid::Uuid::now_v7().as_u128()
}

/// The text of an optional UUID, as `Option::map` with `to_string` gives it.
pub fn uuid_to_string_opt(o: &Option<Uuid>) -> (r: Option<String>)
    ensures
        crate::text::view_opt(r) == uuid_text_opt(*o),
{
    match o {
        Some(u) => Some(u.to_string()),
        None => None,
    }
}

/// The identifier of an agent session.
#[derive(Clone, Copy, Debug, PartialEq, Eq, Structural, Hash)]
pub struct AgentSessionId {
    uuid: Uuid,
}

impl AgentSessionId {
    pub closed spec fn uuid(self) -> Uuid {
        self.uuid
    }

    /// The session identified by `uuid`.
    pub fn new_from_uuid(uuid: Uuid) -> (r: AgentSessionId)
        ensures
            r.uuid() == uuid,
    {
        AgentSessionId { uuid }
    }

    /// The session's UUID.
    pub fn as_uuid(&self) -> (r: Uuid)
        ensures
            r == self.uuid(),
    {
        self.uuid
    }

    /// The session's bare UUID text.
    pub fn to_string(&self) -> (r: String)
        ensures
            r@ == uuid_text(self.uuid().value()),
            uuid_parse(r@) == Some(self.uuid().value()),
    {
        self.uuid.to_string()
    }
}

/// Two values that agree on all 32 hexadecimal digits are equal.
proof fn lemma_digits_determine_value(x: u128, y: u128)
    by (bit_vector)
    requires
        (x >> 124u128) & 0xfu128 == (y >> 124u128) & 0xfu128,
        (x >> 120u128) & 0xfu128 == (y >> 120u128) & 0xfu128,
        (x >> 116u128) & 0xfu128 == (y >> 116u128) & 0xfu128,
        (x >> 112u128) & 0xfu128 == (y >> 112u128) & 0xfu128,
        (x >> 108u128) & 0xfu128 == (y >> 108u128) & 0xfu128,
        (x >> 104u128) & 0xfu128 == (y >> 104u128) & 0xfu128,
        (x >> 100u128) & 0xfu128 == (y >> 100u128) & 0xfu128,
        (x >> 96u128) & 0xfu128 == (y >> 96u128) & 0xfu128,
        (x >> 92u128) & 0xfu128 == (y >> 92u128) & 0xfu128,
        (x >> 88u128) & 0xfu128 == (y >> 88u128) & 0xfu128,
        (x >> 84u128) & 0xfu128 == (y >> 84u128) & 0xfu128,
        (x >> 80u128) & 0xfu128 == (y >> 80u128) & 0xfu128,
        (x >> 76u128) & 0xfu128 == (y >> 76u128) & 0xfu128,
        (x >> 72u128) & 0xfu128 == (y >> 72u128) & 0xfu128,
        (x >> 68u128) & 0xfu128 == (y >> 68u128) & 0xfu128,
        (x >> 64u128) & 0xfu128 == (y >> 64u128) & 0xfu128,
        (x >> 60u128) & 0xfu128 == (y >> 60u128) & 0xfu128,
        (x >> 56u128) & 0xfu128 == (y >> 56u128) & 0xfu128,
        (x >> 52u128) & 0xfu128 == (y >> 52u128) & 0xfu128,
        (x >> 48u128) & 0xfu128 == (y >> 48u128) & 0xfu128,
        (x >> 44u128) & 0xfu128 == (y >> 44u128) & 0xfu128,
        (x >> 40u128) & 0xfu128 == (y >> 40u128) & 0xfu128,
        (x >> 36u128) & 0xfu128 == (y >> 36u128) & 0xfu128,
        (x >> 32u128) & 0xfu128 == (y >> 32u128) & 0xfu128,
        (x >> 28u128) & 0xfu128 == (y >> 28u128) & 0xfu128,
        (x >> 24u128) & 0xfu128 == (y >> 24u128) & 0xfu128,
        (x >> 20u128) & 0xfu128 == (y >> 20u128) & 0xfu128,
        (x >> 16u128) & 0xfu128 == (y >> 16u128) & 0xfu128,
        (x >> 12u128) & 0xfu128 == (y >> 12u128) & 0xfu128,
        (x >> 8u128) & 0xfu128 == (y >> 8u128) & 0xfu128,
        (x >> 4u128) & 0xfu128 == (y >> 4u128) & 0xfu128,
        (x >> 0u128) & 0xfu128 == (y >> 0u128) & 0xfu128,
    ensures
        x == y,
{
}

/// A hexadecimal digit of a value is below 16.
proof fn lemma_nibble_bound(x: u128, s: u128)
    by (bit_vector)
    ensures
        (x >> s) & 0xfu128 < 16,
{
}

/// The position in the hyphenated text of the `k`-th digit.
pub open spec fn digit_position(k: int) -> int {
    if k < 8 {
        k
    } else if k < 12 {
        k + 1
    } else if k < 16 {
        k + 2
    } else if k < 20 {
        k + 3
    } else {
        k + 4
    }
}

/// The hyphenated text of a UUID determines its value.
pub proof fn lemma_uuid_text_injective(x: u128, y: u128)
    requires
        uuid_text(x) == uuid_text(y),
    ensures
        x == y,
{
    assert forall|k: int| 0 <= k < 32 implies nibble(x, k) == nibble(y, k) by {
        let p = digit_position(k);
        assert(!is_hyphen_position(p) && digit_index(p) == k && 0 <= p < 36);
        assert(uuid_text(x)[p] == uuid_text(y)[p]);
        assert(uuid_text(x)[p] == hex_digit(nibble(x, digit_index(p))));
        assert(uuid_text(y)[p] == hex_digit(nibble(y, digit_index(p))));
        lemma_nibble_bound(x, (124 - 4 * k) as u128);
        lemma_nibble_bound(y, (124 - 4 * k) as u128);
        let a = nibble(x, k);
        let b = nibble(y, k);
        assert(hex_digit(a) == hex_digit(b));
        assert(a == b);
    }
    assert(nibble(x, 0) == nibble(y, 0));
    assert(nibble(x, 1) == nibble(y, 1));
    assert(nibble(x, 2) == nibble(y, 2));
    assert(nibble(x, 3) == nibble(y, 3));
    assert(nibble(x, 4) == nibble(y, 4));
    assert(nibble(x, 5) == nibble(y, 5));
    assert(nibble(x, 6) == nibble(y, 6));
    assert(nibble(x, 7) == nibble(y, 7));
    assert(nibble(x, 8) == nibble(y, 8));
    assert(nibble(x, 9) == nibble(y, 9));
    assert(nibble(x, 10) == nibble(y, 10));
    assert(nibble(x, 11) == nibble(y, 11));
    assert(nibble(x, 12) == nibble(y, 12));
    assert(nibble(x, 13) == nibble(y, 13));
    assert(nibble(x, 14) == nibble(y, 14));
    assert(nibble(x, 15) == nibble(y, 15));
    assert(nibble(x, 16) == nibble(y, 16));
    assert(nibble(x, 17) == nibble(y, 17));
    assert(nibble(x, 18) == nibble(y, 18));
    assert(nibble(x, 19) == nibble(y, 19));
    assert(nibble(x, 20) == nibble(y, 20));
    assert(nibble(x, 21) == nibble(y, 21));
    assert(nibble(x, 22) == nibble(y, 22));
    assert(nibble(x, 23) == nibble(y, 23));
    assert(nibble(x, 24) == nibble(y, 24));
    assert(nibble(x, 25) == nibble(y, 25));
    assert(nibble(x, 26) == nibble(y, 26));
    assert(nibble(x, 27) == nibble(y, 27));
    assert(nibble(x, 28) == nibble(y, 28));
    assert(nibble(x, 29) == nibble(y, 29));
    assert(nibble(x, 30) == nibble(y, 30));
    assert(nibble(x, 31) == nibble(y, 31));
    lemma_digits_determine_value(x, y);
}


/// UUIDs with the same value are the same UUID.
pub proof fn lemma_value_determines_uuid(u: Uuid, v: Uuid)
    requires
        u.value() == v.value(),
    ensures
        u == v,
{
}

} // verus!
