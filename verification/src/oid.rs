//! Twelve-byte document identifiers and their 24-digit hexadecimal text form.

use vstd::prelude::*;

verus! {

/// A document identifier: four bytes of creation time in seconds followed by
/// eight bytes that make it unique, read as big-endian integers.
#[derive(Clone, Copy, Debug, PartialEq, Eq, Structural, Hash)]
pub struct ObjectId {
    pub seconds: u32,
    pub unique: u64,
}

/// The lowercase hexadecimal digit for `d`, `0 <= d < 16`.
pub open spec fn hex_digit(d: int) -> char
    recommends
        0 <= d < 16,
{
    seq!['0', '1', '2', '3', '4', '5', '6', '7', '8', '9', 'a', 'b', 'c', 'd', 'e', 'f'][d]
}

/// The value of a hexadecimal digit of either case, or `-1` for any other
/// character.
pub open spec fn digit_value(c: char) -> int {
    let n = c as int;
    if 48 <= n <= 57 {
        n - 48
    } else if 97 <= n <= 102 {
        n - 87
    } else if 65 <= n <= 70 {
        n - 55
    } else {
        -1
    }
}

/// The last `n` hexadecimal digits of `v`, most significant first.
pub open spec fn hex_digits(v: int, n: nat) -> Seq<char>
    decreases n,
{
    if n == 0 {
        Seq::empty()
    } else {
        hex_digits(v / 16, (n - 1) as nat).push(hex_digit(v % 16))
    }
}

/// Whether every character of `s` is a hexadecimal digit.
pub open spec fn all_hex(s: Seq<char>) -> bool {
    forall|i: int| 0 <= i < s.len() ==> digit_value(#[trigger] s[i]) >= 0
}

/// Whether `s` is the text form of an identifier: 24 hexadecimal digits.
pub open spec fn is_object_id_hex(s: Seq<char>) -> bool {
    s.len() == 24 && all_hex(s)
}

/// The number that the hexadecimal digits of `s` write, most significant
/// first.
pub open spec fn hex_value(s: Seq<char>) -> int
    decreases s.len(),
{
    if s.len() == 0 {
        0
    } else {
        hex_value(s.drop_last()) * 16 + digit_value(s.last())
    }
}

/// Whether `v` can be written with `n` hexadecimal digits.
pub open spec fn fits_hex(v: int, n: nat) -> bool
    decreases n,
{
    if n == 0 {
        v == 0
    } else {
        fits_hex(v / 16, (n - 1) as nat)
    }
}

/// The identifier that the 24 hexadecimal digits of `text` write.
pub open spec fn object_id_of(text: Seq<char>) -> ObjectId
    recommends
        is_object_id_hex(text),
{
    ObjectId {
        seconds: (hex_value(text) / 0x1_0000_0000_0000_0000) as u32,
        unique: (hex_value(text) % 0x1_0000_0000_0000_0000) as u64,
    }
}

/// What reading `text` as an identifier gives: the identifier that it
/// writes, or nothing where it is not 24 hexadecimal digits.
pub open spec fn parsed(text: Seq<char>) -> Option<ObjectId> {
    if is_object_id_hex(text) {
        Some(object_id_of(text))
    } else {
        None
    }
}

impl ObjectId {
    /// The identifier's twelve bytes read as one big-endian number.
    pub open spec fn value(self) -> int {
        self.seconds as int * 0x1_0000_0000_0000_0000 + self.unique as int
    }

    /// The identifier's text form: 24 lowercase hexadecimal digits.
    pub open spec fn hex(self) -> Seq<char> {
        hex_digits(self.value(), 24)
    }

    /// Reads an identifier from its text form. Digits of either case are
    /// accepted; anything but 24 hexadecimal digits is refused.
    pub fn parse_str(text: &str) -> (r: Option<ObjectId>)
        ensures
            r == parsed(text@),
            r matches Some(id) ==> id.value() == hex_value(text@),
    {
        decode_object_id(text)
    }

    /// Writes the identifier in its text form.
    pub fn to_hex(&self) -> (r: String)
        ensures
            r@ == self.hex(),
    {
        encode_object_id(self)
    }

    /// Makes a new identifier from the clock, the process and a counter.
    /// Nothing is promised of its value.
    pub fn generate() -> ObjectId {
        generate_object_id()
    }
}

/// Calls `bson::oid::ObjectId::parse_str`, which decodes the text with
/// `hex::decode` and accepts exactly twelve decoded bytes. The text is
/// accepted when it is 24 hexadecimal digits of either case, and the bytes
/// are then the number those digits write.
#[verifier::external_body]
fn decode_object_id(text: &str) -> (r: Option<ObjectId>)
    ensures
        r is Some <==> is_object_id_hex(text@),
        r matches Some(id) ==> id.value() == hex_value(text@),
{
    let b = bson::oid::ObjectId::parse_str(text).ok()?.bytes();
    Some(ObjectId {
        seconds: u32::from_be_bytes([b[0], b[1], b[2], b[3]]),
        unique: u64::from_be_bytes([b[4], b[5], b[6], b[7], b[8], b[9], b[10], b[11]]),
    })
}

/// Calls `bson::oid::ObjectId::to_hex`, which writes each of the twelve bytes
/// as two lowercase hexadecimal digits, first byte first.
#[verifier::external_body]
fn encode_object_id(id: &ObjectId) -> (r: String)
    ensures
        r@ == hex_digits(id.value(), 24),
{
    let s = id.seconds.to_be_bytes();
    let u = id.unique.to_be_bytes();
    let b = [s[0], s[1], s[2], s[3], u[0], u[1], u[2], u[3], u[4], u[5], u[6], u[7]];
    bson::oid::ObjectId::from_bytes(b).to_hex()
}

/// Calls `bson::oid::ObjectId::new`, whose bytes come from the system clock, a
/// random value chosen once per process and a counter: no two calls need
/// agree, so nothing is stated of the result. The call returns as long as
/// the system clock reads a time between the years 1970 and 2106.
#[verifier::external_body]
fn generate_object_id() -> ObjectId {
    let b = bson::oid::ObjectId::new().bytes();
    ObjectId {
        seconds: u32::from_be_bytes([b[0], b[1], b[2], b[3]]),
        unique: u64::from_be_bytes([b[4], b[5], b[6], b[7], b[8], b[9], b[10], b[11]]),
    }
}

/// Sixteen to the power `n`.
pub open spec fn pow16(n: nat) -> int
    decreases n,
{
    if n == 0 {
        1
    } else {
        16 * pow16((n - 1) as nat)
    }
}

/// A number below sixteen to the power `n` can be written with `n` digits.
pub proof fn lemma_small_numbers_fit(v: int, n: nat)
    requires
        0 <= v < pow16(n),
    ensures
        fits_hex(v, n),
    decreases n,
{
    if n > 0 {
        lemma_small_numbers_fit(v / 16, (n - 1) as nat);
    }
}

/// Writing `n` digits gives `n` hexadecimal digits, and reading them back
/// gives the number that was written, where it can be written with `n`
/// digits.
pub proof fn lemma_digits_round_trip(v: int, n: nat)
    requires
        0 <= v,
    ensures
        hex_digits(v, n).len() == n,
        all_hex(hex_digits(v, n)),
        fits_hex(v, n) ==> hex_value(hex_digits(v, n)) == v,
    decreases n,
{
    if n > 0 {
        let rest = hex_digits(v / 16, (n - 1) as nat);
        let last = hex_digit(v % 16);
        lemma_digits_round_trip(v / 16, (n - 1) as nat);
        assert(digit_value(last) == v % 16);
        assert(hex_digits(v, n) == rest.push(last));
        assert(rest.push(last).drop_last() =~= rest);
        assert(rest.push(last).last() == last);
        assert forall|i: int| 0 <= i < rest.push(last).len() implies digit_value(
            #[trigger] rest.push(last)[i],
        ) >= 0 by {
            if i < rest.len() {
                assert(rest.push(last)[i] == rest[i]);
            }
        }
    }
}

/// The text form of an identifier is 24 hexadecimal digits, and reading it
/// gives the identifier back.
pub proof fn lemma_hex_round_trip(id: ObjectId)
    ensures
        is_object_id_hex(id.hex()),
        parsed(id.hex()) == Some(id),
{
    reveal_with_fuel(pow16, 25);
    assert(pow16(24) == 0x1_0000_0000_0000_0000_0000_0000);
    lemma_small_numbers_fit(id.value(), 24);
    lemma_digits_round_trip(id.value(), 24);
}

} // verus!
