//! Identifiers of stored documents: twelve bytes, written as 24 hexadecimal
//! digits.

use vstd::prelude::*;

use crate::text::is_digit;

verus! {

/// The identifier of a stored document.
#[derive(Clone, Copy, Debug)]
pub struct ObjectId {
    pub bytes: [u8; 12],
}

impl View for ObjectId {
    type V = Seq<u8>;

    open spec fn view(&self) -> Seq<u8> {
        self.bytes@
    }
}

/// A hexadecimal digit, of either case.
pub open spec fn is_hex_digit(c: char) -> bool {
    is_digit(c) || ('a' <= c <= 'f') || ('A' <= c <= 'F')
}

pub open spec fn hex_value(c: char) -> int {
    if is_digit(c) {
        c as int - 48
    } else if 'a' <= c <= 'f' {
        c as int - 87
    } else {
        c as int - 55
    }
}

/// The lowercase hexadecimal digit of `n`.
pub open spec fn hex_char(n: int) -> char {
    if n < 10 {
        ((48 + n) as u32) as char
    } else {
        ((87 + n) as u32) as char
    }
}

/// `s` writes an identifier: exactly 24 hexadecimal digits.
pub open spec fn is_object_id(s: Seq<char>) -> bool {
    s.len() == 24 && forall|i: int| 0 <= i < 24 ==> is_hex_digit(#[trigger] s[i])
}

/// The bytes that the hexadecimal digits of `s` write.
pub open spec fn object_id_bytes(s: Seq<char>) -> Seq<u8> {
    Seq::new(12, |i: int| (16 * hex_value(s[2 * i]) + hex_value(s[2 * i + 1])) as u8)
}

/// The lowercase hexadecimal digits of `bytes`.
pub open spec fn hex_form(bytes: Seq<u8>) -> Seq<char> {
    Seq::new(
        2 * bytes.len(),
        |i: int|
            if i % 2 == 0 {
                hex_char(bytes[i / 2] as int / 16)
            } else {
                hex_char(bytes[i / 2] as int % 16)
            },
    )
}

/// The identifier that a text writes.
pub open spec fn object_id_of(s: Seq<char>) -> ObjectId {
    choose|id: ObjectId| #[trigger] id@ == object_id_bytes(s)
}

/// An identifier is its bytes.
pub proof fn lemma_same_bytes(a: ObjectId, b: ObjectId)
    requires
        a@ == b@,
    ensures
        a == b,
{
    assert(a.bytes =~= b.bytes);
}

impl ObjectId {
    /// `bson::oid::ObjectId::parse_str`: the identifier that 24 hexadecimal
    /// digits write; any other text is refused.
    #[verifier::external_body]
    pub(crate) fn parse(s: &str) -> (r: Option<ObjectId>)
        ensures
            (r is Some) == is_object_id(s@),
            r is Some ==> r->0@ == object_id_bytes(s@),
    {
        match bson::oid::ObjectId::parse_str(s) {
            Ok(id) => Some(ObjectId { bytes: id.bytes() }),
            Err(_) => None,
        }
    }

    /// `bson::oid::ObjectId::to_hex`: the 24 lowercase hexadecimal digits of an
    /// identifier.
    #[verifier::external_body]
    fn hex_digits(&self) -> (r: String)
        ensures
            r@ == hex_form(self@),
    {
        bson::oid::ObjectId::from_bytes(self.bytes).to_hex()
    }

    /// The 24 lowercase hexadecimal digits of an identifier.
    pub fn to_hex(&self) -> (r: String)
        ensures
            r@ == hex_form(self@),
    {
        self.hex_digits()
    }

    /// `bson::oid::ObjectId::new`: a new identifier, of the time, the process and
    /// a counter, so nothing is said of it.
    #[verifier::external_body]
    pub(crate) fn fresh() -> (r: ObjectId) {
        ObjectId { bytes: bson::oid::ObjectId::new().bytes() }
    }

    /// Whether two identifiers are the same.
    pub fn is(&self, other: &ObjectId) -> (r: bool)
        ensures
            r == (self@ == other@),
    {
        let mut i: usize = 0;
        while i < 12
            invariant
                i <= 12,
                forall|j: int| 0 <= j < i ==> self@[j] == other@[j],
            decreases 12 - i,
        {
            if self.bytes[i] != other.bytes[i] {
                return false;
            }
            i += 1;
        }
        assert(self@ =~= other@);
        true
    }
}

/// The identifier is a new one of `bson`.
pub closed spec fn is_fresh(id: ObjectId) -> bool {
    call_ensures(ObjectId::fresh, (), id)
}

/// Calls a function that makes an identifier, and keeps that it is the one that
/// was made.
fn made_by(make: impl Fn() -> ObjectId) -> (r: ObjectId)
    requires
        call_requires(make, ()),
    ensures
        call_ensures(make, (), r),
{
    make()
}

/// Makes a new identifier.
pub(crate) fn new_id() -> (r: ObjectId)
    ensures
        is_fresh(r),
{
    made_by(ObjectId::fresh)
}

/// The text of an identifier reads back as the same identifier.
pub proof fn law_hex_reads_back(bytes: Seq<u8>)
    requires
        bytes.len() == 12,
    ensures
        is_object_id(hex_form(bytes)),
        object_id_bytes(hex_form(bytes)) == bytes,
{
    let s = hex_form(bytes);
    assert forall|i: int| 0 <= i < 24 implies is_hex_digit(#[trigger] s[i]) by {}
    assert forall|i: int| 0 <= i < 12 implies object_id_bytes(s)[i] == bytes[i] by {
        assert(s[2 * i] == hex_char(bytes[i] as int / 16));
        assert(s[2 * i + 1] == hex_char(bytes[i] as int % 16));
    }
    assert(object_id_bytes(s) =~= bytes);
}

/// Reading an identifier and writing it again gives its lowercase digits.
pub proof fn law_hex_is_lowercase(s: Seq<char>)
    requires
        is_object_id(s),
    ensures
        hex_form(object_id_bytes(s)) == crate::text::ascii_lowercase(s),
{
    let b = object_id_bytes(s);
    let t = hex_form(b);
    assert forall|i: int| 0 <= i < 24 implies t[i] == crate::text::ascii_lower(s[i]) by {
        let k = i / 2;
        assert(is_hex_digit(s[2 * k]));
        assert(is_hex_digit(s[2 * k + 1]));
        assert(b[k] == 16 * hex_value(s[2 * k]) + hex_value(s[2 * k + 1]));
        if i % 2 == 0 {
            assert(i == 2 * k);
        } else {
            assert(i == 2 * k + 1);
        }
    }
    assert(t =~= crate::text::ascii_lowercase(s));
}

/// The identifier that a text writes has the bytes that it writes.
pub proof fn law_text_names_its_bytes(s: Seq<char>)
    ensures
        object_id_of(s)@ == object_id_bytes(s),
{
    let b = object_id_bytes(s);
    let id = ObjectId {
        bytes: [b[0], b[1], b[2], b[3], b[4], b[5], b[6], b[7], b[8], b[9], b[10], b[11]],
    };
    assert(id@ =~= b);
}

/// Identifiers with the same text are the same.
pub proof fn law_hex_is_injective(a: Seq<u8>, b: Seq<u8>)
    requires
        a.len() == 12,
        b.len() == 12,
        hex_form(a) == hex_form(b),
    ensures
        a == b,
{
    law_hex_reads_back(a);
    law_hex_reads_back(b);
}

/// A new identifier is one that was made for it.
proof fn law_new_identifiers_are_made(id: ObjectId)
    requires
        is_fresh(id),
    ensures
        call_ensures(ObjectId::fresh, (), id),
{
}

} // verus!
