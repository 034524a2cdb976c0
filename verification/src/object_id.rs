//! Object identifiers: twelve bytes, written as twenty-four hexadecimal digits.

use vstd::prelude::*;

verus! {

/// One of `0`-`9`, `a`-`f`, `A`-`F`.
pub open spec fn is_hex_digit(c: char) -> bool {
    ('0' as u32 <= c as u32 && c as u32 <= '9' as u32)
        || ('a' as u32 <= c as u32 && c as u32 <= 'f' as u32)
        || ('A' as u32 <= c as u32 && c as u32 <= 'F' as u32)
}

/// The number a hexadecimal digit stands for.
pub open spec fn hex_value(c: char) -> int {
    if '0' as u32 <= c as u32 && c as u32 <= '9' as u32 {
        c as u32 - '0' as u32
    } else if 'a' as u32 <= c as u32 && c as u32 <= 'f' as u32 {
        c as u32 - 'a' as u32 + 10
    } else {
        c as u32 - 'A' as u32 + 10
    }
}

/// The lower-case hexadecimal digit for a number below sixteen.
pub open spec fn hex_digit(n: int) -> char {
    if n < 10 {
        ('0' as u32 + n) as char
    } else {
        ('a' as u32 + n - 10) as char
    }
}

/// The lower-case form of a hexadecimal digit; other characters are unchanged.
pub open spec fn lower_hex(c: char) -> char {
    if 'A' as u32 <= c as u32 && c as u32 <= 'F' as u32 {
        (c as u32 + 32) as char
    } else {
        c
    }
}

/// A text is an identifier when it is exactly twenty-four hexadecimal digits.
pub open spec fn is_object_id_text(s: Seq<char>) -> bool {
    &&& s.len() == 24
    &&& forall|i: int| 0 <= i < 24 ==> is_hex_digit(#[trigger] s[i])
}

/// The twelve bytes that an identifier text denotes, two digits per byte,
/// the high digit first.
pub open spec fn object_id_bytes(s: Seq<char>) -> Seq<u8> {
    Seq::new(12, |i: int| (hex_value(s[2 * i]) * 16 + hex_value(s[2 * i + 1])) as u8)
}

/// The lower-case hexadecimal text of a byte string.
pub open spec fn hex_text(bytes: Seq<u8>) -> Seq<char> {
    Seq::new(
        2 * bytes.len(),
        |i: int|
            hex_digit(
                if i % 2 == 0 {
                    bytes[i / 2] as int / 16
                } else {
                    bytes[i / 2] as int % 16
                },
            ),
    )
}

/// The canonical spelling of an identifier text: the same digits in lower case.
pub open spec fn canonical_text(s: Seq<char>) -> Seq<char> {
    Seq::new(s.len(), |i: int| lower_hex(s[i]))
}

/// An identifier text in canonical spelling: twenty-four hexadecimal digits,
/// none of them an upper-case letter.
pub open spec fn is_canonical_id(s: Seq<char>) -> bool {
    is_object_id_text(s) && canonical_text(s) == s
}

#[verifier::external_type_specification]
#[verifier::external_body]
pub struct ExOidError(bson::oid::Error);

/// Calls `bson::oid::ObjectId::parse_str` and hands back the bytes of the
/// identifier it built.
///
/// Trusted: the call succeeds exactly on twenty-four hexadecimal digits of
/// either case, and the bytes are those digits read pairwise, high digit first.
#[verifier::external_body]
pub(crate) fn parse_str(text: &str) -> (r: Result<[u8; 12], bson::oid::Error>)
    ensures
        r is Ok <==> is_object_id_text(text@),
        r matches Ok(bytes) ==> bytes@ == object_id_bytes(text@),
{
    match bson::oid::ObjectId::parse_str(text) {
        Ok(id) => Ok(id.bytes()),
        Err(e) => Err(e),
    }
}

/// Calls `bson::oid::ObjectId::to_hex` on the identifier made of `bytes`.
///
/// Trusted: the text is the lower-case hexadecimal spelling of the bytes, two
/// digits per byte, the high digit first.
#[verifier::external_body]
pub(crate) fn to_hex(bytes: [u8; 12]) -> (r: String)
    ensures
        r@ == hex_text(bytes@),
{
    bson::oid::ObjectId::from_bytes(bytes).to_hex()
}

/// Calls `bson::oid::ObjectId::new`, which draws on the clock, a per-process
/// random value and a counter. Nothing is claimed of the bytes; the outside
/// call gives up if the system clock stands before 1970.
#[verifier::external_body]
pub(crate) fn generate() -> (r: [u8; 12])
{
    bson::oid::ObjectId::new().bytes()
}

/// Spelling the bytes of an identifier text gives the text back in lower case.
pub proof fn lemma_hex_of_bytes_is_canonical(s: Seq<char>)
    requires
        is_object_id_text(s),
    ensures
        hex_text(object_id_bytes(s)) == canonical_text(s),
        is_object_id_text(canonical_text(s)),
{
    let b = object_id_bytes(s);
    let h = hex_text(b);
    let c = canonical_text(s);
    assert(h.len() == c.len());
    assert forall|i: int| 0 <= i < 24 implies h[i] == c[i] && is_hex_digit(c[i]) by {
        let k = i / 2;
        assert(is_hex_digit(s[2 * k]));
        assert(is_hex_digit(s[2 * k + 1]));
        let hi = hex_value(s[2 * k]);
        let lo = hex_value(s[2 * k + 1]);
        assert(0 <= hi < 16 && 0 <= lo < 16);
        assert(b[k] == (hi * 16 + lo) as u8);
        assert((hi * 16 + lo) / 16 == hi && (hi * 16 + lo) % 16 == lo);
        assert(is_hex_digit(s[i]));
        if i % 2 == 0 {
            assert(i == 2 * k);
            assert(hex_digit(hi) == lower_hex(s[i]));
        } else {
            assert(i == 2 * k + 1);
            assert(hex_digit(lo) == lower_hex(s[i]));
        }
    }
    assert(h =~= c);
}

/// The canonical spelling of an identifier text is itself an identifier text
/// in canonical spelling.
pub proof fn lemma_canonical_is_idempotent(s: Seq<char>)
    requires
        is_object_id_text(s),
    ensures
        is_object_id_text(canonical_text(s)),
        canonical_text(canonical_text(s)) == canonical_text(s),
{
    let c = canonical_text(s);
    assert forall|i: int| 0 <= i < 24 implies is_hex_digit(#[trigger] c[i]) && lower_hex(c[i])
        == c[i] by {
        assert(is_hex_digit(s[i]));
    }
    assert(canonical_text(c) =~= c);
}

/// Two identifier texts denote the same bytes exactly when their canonical
/// spellings are equal.
pub proof fn lemma_same_bytes_same_spelling(s: Seq<char>, t: Seq<char>)
    requires
        is_object_id_text(s),
        is_object_id_text(t),
    ensures
        object_id_bytes(s) == object_id_bytes(t) <==> canonical_text(s) == canonical_text(t),
{
    lemma_hex_of_bytes_is_canonical(s);
    lemma_hex_of_bytes_is_canonical(t);
    lemma_hex_text_is_object_id(object_id_bytes(s));
    lemma_hex_text_is_object_id(object_id_bytes(t));
}

/// The canonical spelling of an identifier text, or the parser's complaint.
///
/// Two texts name the same identifier exactly when their canonical spellings
/// are equal, so records and queries hold identifiers in this form.
pub fn canonical_id(text: &str) -> (r: Result<String, bson::oid::Error>)
    ensures
        r is Ok <==> is_object_id_text(text@),
        r matches Ok(id) ==> id@ == canonical_text(text@) && is_canonical_id(id@),
{
    match parse_str(text) {
        Ok(bytes) => {
            proof {
                lemma_hex_of_bytes_is_canonical(text@);
                lemma_canonical_is_idempotent(text@);
            }
            Ok(to_hex(bytes))
        },
        Err(e) => Err(e),
    }
}

/// A fresh identifier in canonical spelling.
pub fn fresh_id() -> (r: String)
    ensures
        is_canonical_id(r@),
{
    let bytes = generate();
    let r = to_hex(bytes);
    proof {
        lemma_hex_text_is_object_id(bytes@);
    }
    r
}

/// Twelve bytes always spell an identifier text, and reading it gives the
/// bytes back.
pub proof fn lemma_hex_text_is_object_id(bytes: Seq<u8>)
    requires
        bytes.len() == 12,
    ensures
        is_object_id_text(hex_text(bytes)),
        object_id_bytes(hex_text(bytes)) == bytes,
        canonical_text(hex_text(bytes)) == hex_text(bytes),
{
    let h = hex_text(bytes);
    assert forall|i: int| 0 <= i < 24 implies is_hex_digit(#[trigger] h[i]) && lower_hex(h[i])
        == h[i] by {
        let n = if i % 2 == 0 {
            bytes[i / 2] as int / 16
        } else {
            bytes[i / 2] as int % 16
        };
        assert(0 <= n < 16);
        assert(h[i] == hex_digit(n));
    }
    assert forall|k: int| 0 <= k < 12 implies object_id_bytes(h)[k] == bytes[k] by {
        let hi = bytes[k] as int / 16;
        let lo = bytes[k] as int % 16;
        assert(h[2 * k] == hex_digit(hi));
        assert(h[2 * k + 1] == hex_digit(lo));
        assert(hex_value(hex_digit(hi)) == hi);
        assert(hex_value(hex_digit(lo)) == lo);
        assert(hi * 16 + lo == bytes[k] as int);
    }
    assert(object_id_bytes(h) =~= bytes);
    assert(canonical_text(h) =~= h);
}

} // verus!
