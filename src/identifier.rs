//! String-backed identity values and the UUIDs they are usually made from.

use vstd::prelude::*;
use vstd::arithmetic::power::pow;
use crate::text::{is_white_space, trimmed, lemma_trimmed_unchanged};
use uuid::Uuid;

verus! {

/// Relies on `uuid::Uuid::new_v4` and `Uuid::as_u128`: the value of a random
/// version-4 UUID. `new_v4` masks the random bits so that hexadecimal digit
/// 12 (counting from the most significant, from 0) is the version 4, and the
/// top two bits of digit 16 are the variant `10`.
#[verifier::external_body]
fn random_v4_value() -> (r: u128)
    ensures
        (r as int / pow(16, 19)) % 16 == 4,
        8 <= (r as int / pow(16, 15)) % 16 <= 11,
{
    Uuid::new_v4().as_u128()
}

/// Lower-case hexadecimal digit of `n`, for `0 <= n < 16`.
pub open spec fn hex_digit(n: int) -> char {
    seq!['0', '1', '2', '3', '4', '5', '6', '7', '8', '9', 'a', 'b', 'c', 'd', 'e', 'f'][n]
}

/// The 32 lower-case hexadecimal digits of `v`, most significant first.
pub open spec fn hex_digits_128(v: nat) -> Seq<char> {
    Seq::new(32, |i: int| hex_digit((v as int / pow(16, (31 - i) as nat)) % 16))
}

/// The hyphenated form of the UUID whose value is `v`: digit groups of
/// 8, 4, 4, 4 and 12 joined by '-'.
pub open spec fn hyphenated_uuid(v: nat) -> Seq<char> {
    let h = hex_digits_128(v);
    h.subrange(0, 8) + seq!['-'] + h.subrange(8, 12) + seq!['-'] + h.subrange(12, 16) + seq!['-']
        + h.subrange(16, 20) + seq!['-'] + h.subrange(20, 32)
}

/// Whether `s` is the hyphenated form of some UUID.
pub open spec fn is_uuid_text(s: Seq<char>) -> bool {
    exists|v: u128| s == hyphenated_uuid(v as nat)
}

/// Whether `s` is the hyphenated form of a version-4 UUID of the standard
/// variant: version digit '4' at index 14, and one of '8', '9', 'a', 'b' at
/// index 19.
pub open spec fn is_v4_uuid_text(s: Seq<char>) -> bool {
    &&& is_uuid_text(s)
    &&& s[14] == '4'
    &&& (s[19] == '8' || s[19] == '9' || s[19] == 'a' || s[19] == 'b')
}

/// The hyphenated text of a value whose version and variant digits are those
/// of a version-4 UUID is a version-4 UUID text.
proof fn lemma_v4_text(v: u128)
    requires
        (v as int / pow(16, 19)) % 16 == 4,
        8 <= (v as int / pow(16, 15)) % 16 <= 11,
    ensures
        is_v4_uuid_text(hyphenated_uuid(v as nat)),
{
    let s = hyphenated_uuid(v as nat);
    let h = hex_digits_128(v as nat);
    assert(s[14] == h[12]);
    assert(s[19] == h[16]);
    assert(h[12] == hex_digit((v as int / pow(16, 19)) % 16));
    assert(h[16] == hex_digit((v as int / pow(16, 15)) % 16));
    assert(is_uuid_text(s));
}

/// Relies on `uuid::Uuid::from_u128` and the `Display` of `Uuid`, which writes
/// the hyphenated lower-case form.
#[verifier::external_body]
fn uuid_text(v: u128) -> (r: String)
    ensures
        r@ == hyphenated_uuid(v as nat),
{
    Uuid::from_u128(v).to_string()
}

/// The hyphenated text of a UUID has 36 characters, and it begins and ends
/// with a hexadecimal digit, so trimming leaves it unchanged.
pub proof fn lemma_uuid_text_trimmed(s: Seq<char>)
    requires
        is_uuid_text(s),
    ensures
        s.len() == 36,
        trimmed(s) == s,
{
    let v = choose|v: u128| s == hyphenated_uuid(v as nat);
    let h = hex_digits_128(v as nat);
    assert(s.len() == 36);
    assert(s[0] == h[0]);
    assert(s.last() == h[31]);
    assert forall|n: int| 0 <= n < 16 implies !is_white_space(#[trigger] hex_digit(n)) by {
        assert(0 <= n < 16);
    }
    lemma_trimmed_unchanged(s);
}

/// An opaque, string-backed identity value.
pub trait Identifier {
    /// The characters of the identifier.
    spec fn value(&self) -> Seq<char>;

    fn get_value(&self) -> (r: &str)
        ensures
            r@ == self.value(),
    ;
}

/// Identity of an `Input`.
#[derive(Debug)]
pub struct InputId {
    value: String,
}

impl Identifier for InputId {
    closed spec fn value(&self) -> Seq<char> {
        self.value@
    }

    fn get_value(&self) -> (r: &str) {
        self.value.as_str()
    }
}

impl InputId {
    fn new(value: String) -> (r: InputId)
        ensures
            r.value() == value@,
    {
        InputId { value }
    }

    /// A fresh identifier: the hyphenated text of a random version-4 UUID.
    pub fn unique() -> (r: InputId)
        ensures
            is_v4_uuid_text(r.value()),
    {
        let v = random_v4_value();
        proof {
            lemma_v4_text(v);
        }
        InputId::from_uuid(v)
    }

    /// The identifier whose text is `an_id`, verbatim (possibly empty).
    pub fn from_str(an_id: &str) -> (r: InputId)
        ensures
            r.value() == an_id@,
    {
        InputId::new(an_id.to_owned())
    }

    /// The identifier whose text is the hyphenated form of the UUID whose
    /// 128-bit value is `an_id` (as `Uuid::as_u128` gives it).
    pub fn from_uuid(an_id: u128) -> (r: InputId)
        ensures
            r.value() == hyphenated_uuid(an_id as nat),
    {
        InputId::new(uuid_text(an_id))
    }

    /// A copy of the identifier.
    pub fn duplicate(&self) -> (r: InputId)
        ensures
            r.value() == self.value(),
    {
        InputId { value: self.value.clone() }
    }
}

/// Identity of a `Supply`.
#[derive(Debug)]
pub struct SupplyId {
    value: String,
}

impl Identifier for SupplyId {
    closed spec fn value(&self) -> Seq<char> {
        self.value@
    }

    fn get_value(&self) -> (r: &str) {
        self.value.as_str()
    }
}

impl SupplyId {
    fn new(value: String) -> (r: SupplyId)
        ensures
            r.value() == value@,
    {
        SupplyId { value }
    }

    /// A fresh identifier: the hyphenated text of a random version-4 UUID.
    pub fn unique() -> (r: SupplyId)
        ensures
            is_v4_uuid_text(r.value()),
    {
        let v = random_v4_value();
        proof {
            lemma_v4_text(v);
        }
        SupplyId::from_uuid(v)
    }

    /// The identifier whose text is `an_id`, verbatim (possibly empty).
    pub fn from_str(an_id: &str) -> (r: SupplyId)
        ensures
            r.value() == an_id@,
    {
        SupplyId::new(an_id.to_owned())
    }

    /// The identifier whose text is the hyphenated form of the UUID whose
    /// 128-bit value is `an_id` (as `Uuid::as_u128` gives it).
    pub fn from_uuid(an_id: u128) -> (r: SupplyId)
        ensures
            r.value() == hyphenated_uuid(an_id as nat),
    {
        SupplyId::new(uuid_text(an_id))
    }

    /// A copy of the identifier.
    pub fn duplicate(&self) -> (r: SupplyId)
        ensures
            r.value() == self.value(),
    {
        SupplyId { value: self.value.clone() }
    }
}

} // verus!
