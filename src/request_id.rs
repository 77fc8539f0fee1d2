//! Correlation identifiers: accepting caller-supplied ones and minting fresh ones.
use vstd::prelude::*;
use vstd::string::{StrSliceExecFns, StringExecFns};

verus! {

/// Shortest caller-supplied identifier that is accepted, in characters.
pub const MIN_SUPPLIED_LEN: usize = 8;

/// Longest caller-supplied identifier that is accepted, in characters.
pub const MAX_SUPPLIED_LEN: usize = 128;

/// Number of random bytes behind a generated identifier.
pub const ID_RANDOM_BYTES: usize = 12;

/// What `str::trim` leaves of a string.
pub uninterp spec fn trim_of(s: Seq<char>) -> Seq<char>;

/// The sixteen lowercase hexadecimal digits, in order of value.
pub open spec fn hex_digits() -> Seq<char> {
    seq!['0', '1', '2', '3', '4', '5', '6', '7', '8', '9', 'a', 'b', 'c', 'd', 'e', 'f']
}

pub open spec fn is_lower_hex(c: char) -> bool {
    hex_digits().contains(c)
}

/// Lowercase hexadecimal text of a byte string: two digits per byte, high nibble first.
pub open spec fn hex_text(b: Seq<u8>) -> Seq<char>
    decreases b.len(),
{
    if b.len() == 0 {
        Seq::empty()
    } else {
        hex_text(b.drop_last()) + seq![
            hex_digits()[(b.last() / 16) as int],
            hex_digits()[(b.last() % 16) as int],
        ]
    }
}

/// The prefix that every generated identifier starts with.
pub open spec fn id_prefix() -> Seq<char> {
    seq!['r', 'e', 'q', '_']
}

/// The identifier minted from the given random bytes.
pub open spec fn generated_id(b: Seq<u8>) -> Seq<char> {
    id_prefix() + hex_text(b)
}

/// The shape of a generated identifier: `req_` and then 24 lowercase hex digits.
pub open spec fn is_generated_id(s: Seq<char>) -> bool {
    &&& s.len() == 28
    &&& s.subrange(0, 4) == id_prefix()
    &&& forall|i: int| 4 <= i < 28 ==> #[trigger] is_lower_hex(s[i])
}

/// A caller-supplied identifier, already trimmed, is kept when its length is in range.
pub open spec fn accepts_supplied(trimmed: Seq<char>) -> bool {
    MIN_SUPPLIED_LEN <= trimmed.len() <= MAX_SUPPLIED_LEN
}

pub proof fn lemma_hex_text_shape(b: Seq<u8>)
    ensures
        hex_text(b).len() == 2 * b.len(),
        forall|i: int| 0 <= i < hex_text(b).len() ==> #[trigger] is_lower_hex(hex_text(b)[i]),
    decreases b.len(),
{
    if b.len() > 0 {
        lemma_hex_text_shape(b.drop_last());
        let hi = hex_digits()[(b.last() / 16) as int];
        let lo = hex_digits()[(b.last() % 16) as int];
        assert(is_lower_hex(hi));
        assert(is_lower_hex(lo));
        let t = hex_text(b);
        assert forall|i: int| 0 <= i < t.len() implies #[trigger] is_lower_hex(t[i]) by {
            if i < hex_text(b.drop_last()).len() {
                assert(t[i] == hex_text(b.drop_last())[i]);
            } else if i == hex_text(b.drop_last()).len() {
                assert(t[i] == hi);
            } else {
                assert(t[i] == lo);
            }
        }
    }
}

/// Every identifier minted from twelve bytes has the generated shape.
pub proof fn lemma_generated_id_shape(b: Seq<u8>)
    requires
        b.len() == ID_RANDOM_BYTES,
    ensures
        is_generated_id(generated_id(b)),
{
    lemma_hex_text_shape(b);
    let s = generated_id(b);
    assert(s.subrange(0, 4) =~= id_prefix());
    assert forall|i: int| 4 <= i < 28 implies #[trigger] is_lower_hex(s[i]) by {
        assert(s[i] == hex_text(b)[i - 4]);
    }
}

/// Relies on `str::trim`: the result depends on the characters of `s` alone.
#[verifier::external_body]
pub(crate) fn trim_str(s: &str) -> (r: &str)
    ensures
        r@ == trim_of(s@),
{
    s.trim()
}

/// Relies on `hex::encode`: two lowercase digits per byte, high nibble first.
#[verifier::external_body]
fn hex_encode(b: &[u8]) -> (r: String)
    ensures
        r@ == hex_text(b@),
{
    hex::encode(b)
}

/// Relies on `rand::random`, drawn from the thread-local cryptographically strong generator.
#[verifier::external_body]
fn random_id_bytes() -> (r: [u8; 12]) {
    rand::random()
}

/// The identifier `req_` followed by the lowercase hex of `bytes`.
pub fn id_from_bytes(bytes: [u8; 12]) -> (r: String)
    ensures
        r@ == generated_id(bytes@),
        is_generated_id(r@),
{
    let hex = hex_encode(&bytes);
    let mut id = String::from_str("req_");
    id.append(hex.as_str());
    proof {
        reveal_strlit("req_");
        assert(id@ =~= generated_id(bytes@));
        lemma_generated_id_shape(bytes@);
    }
    id
}

/// A fresh identifier from twelve random bytes.
pub fn new_request_id() -> (r: String)
    ensures
        is_generated_id(r@),
{
    id_from_bytes(random_id_bytes())
}

/// The caller-supplied identifier, already trimmed, if its length is in range.
pub fn supplied_id(trimmed: &str) -> (r: Option<String>)
    ensures
        accepts_supplied(trimmed@) ==> r is Some && r->0@ == trimmed@,
        !accepts_supplied(trimmed@) ==> r is None,
{
    let n = trimmed.unicode_len();
    if MIN_SUPPLIED_LEN <= n && n <= MAX_SUPPLIED_LEN {
        Some(String::from_str(trimmed))
    } else {
        None
    }
}

/// The correlation identifier of a request: the trimmed header value when its
/// length is in range, else a freshly generated one.
pub fn get_or_create_request_id(header: Option<&str>) -> (r: String)
    ensures
        header is Some && accepts_supplied(trim_of(header->0@)) ==> r@ == trim_of(header->0@),
        !(header is Some && accepts_supplied(trim_of(header->0@))) ==> is_generated_id(r@),
{
    if let Some(h) = header {
        if let Some(id) = supplied_id(trim_str(h)) {
            return id;
        }
    }
    new_request_id()
}

} // verus!
