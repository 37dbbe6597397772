//! The text forms of the identifiers that the log hands out, and of the
//! keys that name its authors.
//!
//! Which texts are identifiers is decided by the `p2panda_rs` parsers. The
//! predicates below say what those parsers accept, so that contracts can
//! speak of it; the functions that follow ask the parsers.

use crate::text::lex_le;
use vstd::prelude::*;

verus! {

/// How many hexadecimal digits the text form of a hash has: two for the
/// kind of the hash, two for its length, and 64 for its 32 bytes.
pub const HASH_DIGITS: usize = 68;

/// `c` is a hexadecimal digit, in either case.
pub open spec fn is_hex_digit(c: char) -> bool {
    ||| '0' as int <= c as int <= '9' as int
    ||| 'a' as int <= c as int <= 'f' as int
    ||| 'A' as int <= c as int <= 'F' as int
}

/// `text` is the text form of a hash of an entry: 68 hexadecimal digits, of
/// which the first two, the kind of the hash, are zeros.
pub open spec fn is_hash(text: Seq<char>) -> bool {
    &&& text.len() == HASH_DIGITS
    &&& forall|i: int| 0 <= i < text.len() ==> is_hex_digit(#[trigger] text[i])
    &&& text[0] == '0'
    &&& text[1] == '0'
}

/// Where the hash at place `i` begins in a text of hashes that are joined
/// by one character each.
pub open spec fn hash_start(i: int) -> int {
    i * (HASH_DIGITS as int + 1)
}

/// The hash that stands at place `i` of such a text.
pub open spec fn hash_at(text: Seq<char>, i: int) -> Seq<char> {
    text.subrange(hash_start(i), hash_start(i) + HASH_DIGITS as int)
}

/// Whether `text` is a document identifier: the text form of the hash of the
/// entry that created the document.
pub open spec fn document_id_is_valid(text: Seq<char>) -> bool {
    is_hash(text)
}

/// Whether `text` is a document view identifier: the text forms of the
/// hashes of the revision's latest entries, at least one, joined by `_` and
/// strictly rising in the order of texts.
pub open spec fn view_id_is_valid(text: Seq<char>) -> bool {
    let count = (text.len() as int + 1) / (HASH_DIGITS as int + 1);
    &&& text.len() >= HASH_DIGITS
    &&& (text.len() as int + 1) % (HASH_DIGITS as int + 1) == 0
    &&& forall|i: int| 0 <= i < count ==> is_hash(#[trigger] hash_at(text, i))
    &&& forall|i: int|
        0 <= i < count - 1 ==> {
            &&& text[hash_start(i) + HASH_DIGITS as int] == '_'
            &&& lex_le(#[trigger] hash_at(text, i), hash_at(text, i + 1))
            &&& hash_at(text, i) != hash_at(text, i + 1)
        }
}

/// The hash of an entry is also the identifier of the view that holds that
/// entry alone: what names a new document names its first revision too.
pub proof fn lemma_hash_is_view_id(text: Seq<char>)
    requires
        is_hash(text),
    ensures
        document_id_is_valid(text),
        view_id_is_valid(text),
{
    assert(hash_at(text, 0) =~= text);
    assert forall|i: int| 0 <= i < 1 implies is_hash(#[trigger] hash_at(text, i)) by {
        assert(i == 0);
    }
}

/// Whether `text` is the hexadecimal form of an Ed25519 public key.
pub uninterp spec fn public_key_is_valid(text: Seq<char>) -> bool;

/// Asks `p2panda_rs::document::DocumentId::from_str` whether it accepts
/// `text`. It accepts what decodes as hexadecimal digits to 34 bytes of
/// which the first, the kind of the hash, is zero; the second, its length,
/// is not looked at.
#[verifier::external_body]
pub(crate) fn parses_as_document_id(text: &str) -> (ok: bool)
    ensures
        ok == document_id_is_valid(text@),
{
    text.parse::<p2panda_rs::document::DocumentId>().is_ok()
}

/// Asks `p2panda_rs::document::DocumentViewId::from_str` whether it accepts
/// `text`. It splits the text at every `_`, accepts each part as it accepts
/// a hash, and then asks that each part is greater than the one before it,
/// as texts are ordered.
#[verifier::external_body]
pub(crate) fn parses_as_view_id(text: &str) -> (ok: bool)
    ensures
        ok == view_id_is_valid(text@),
{
    text.parse::<p2panda_rs::document::DocumentViewId>().is_ok()
}

/// Asks `p2panda_rs::identity::PublicKey::new` whether it accepts `text`.
/// The answer is a function of the text alone, and [`public_key_is_valid`]
/// is the name of that function.
#[verifier::external_body]
pub(crate) fn parses_as_public_key(text: &str) -> (ok: bool)
    ensures
        ok == public_key_is_valid(text@),
{
    p2panda_rs::identity::PublicKey::new(text).is_ok()
}

} // verus!
