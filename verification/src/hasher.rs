//! Content digests, and the tokens cut from them.
//!
//! A digest is written as lower-case hexadecimal digits. A token is a prefix
//! of a digest, short enough for a path and safe in a file name.

use crate::text::{copy_range, from_chars, to_chars};
use sha1::{Digest, Sha1};
use vstd::prelude::*;

verus! {

/// When a token is cut from a digest, how many hexadecimal digits of the
/// digest it keeps at most. The digest has 40.
pub const ID_DIGEST_LEN_MAX: usize = 24;

/// The SHA-1 digest of `data`, as 40 lower-case hexadecimal digits: what
/// `sha1::Sha1` computes and `{:x}` writes.
pub uninterp spec fn sha1_hex(data: Seq<u8>) -> Seq<char>;

/// The BLAKE3 hash of `data`, as 64 lower-case hexadecimal digits: what
/// `blake3::hash` computes and `to_string` writes.
pub uninterp spec fn blake3_hex(data: Seq<u8>) -> Seq<char>;

/// `c` is a lower-case hexadecimal digit.
pub open spec fn is_lower_hex(c: char) -> bool {
    ('0' <= c && c <= '9') || ('a' <= c && c <= 'f')
}

/// `s` consists of `n` lower-case hexadecimal digits.
pub open spec fn is_hex_token(s: Seq<char>, n: nat) -> bool {
    s.len() == n && forall|i: int| 0 <= i < s.len() ==> is_lower_hex(#[trigger] s[i])
}

/// `sha1::Sha1` over `data`, from `new` through `update` to `finalize`, the
/// digest then written with `{:x}`. The digest has 20 bytes, and each is
/// written as two digits out of `0123456789abcdef`.
#[verifier::external_body]
fn sha1_digest_hex(data: &[u8]) -> (hex: String)
    ensures
        hex@ == sha1_hex(data@),
        is_hex_token(hex@, 40),
{
    let mut hasher = Sha1::new();
    hasher.update(data);
    format!("{:x}", hasher.finalize())
}

/// `blake3::hash` over `data`, written with `to_string`. The hash has 32
/// bytes, and each is written as two digits out of `0123456789abcdef`.
#[verifier::external_body]
fn blake3_hash_hex(data: &[u8]) -> (hex: String)
    ensures
        hex@ == blake3_hex(data@),
        is_hex_token(hex@, 64),
{
    blake3::hash(data).to_string()
}

/// The digest of content with the bytes `data`: 40 hexadecimal digits that
/// depend on the bytes alone.
pub fn hash(data: &[u8]) -> (digest: String)
    ensures
        digest@ == sha1_hex(data@),
        is_hex_token(digest@, 40),
{
    sha1_digest_hex(data)
}

/// The first `n` characters of `digest`, or all of it where it has fewer.
pub open spec fn truncated(digest: Seq<char>, n: nat) -> Seq<char> {
    if n < digest.len() {
        digest.take(n as int)
    } else {
        digest
    }
}

/// Cuts a token of at most `n` characters from the front of `digest`.
pub fn truncate(digest: &str, n: usize) -> (token: String)
    ensures
        token@ == truncated(digest@, n as nat),
{
    let v = to_chars(digest);
    if n < v.len() {
        let t = copy_range(&v, 0, n);
        from_chars(&t)
    } else {
        from_chars(&v)
    }
}

/// The token that identifies content with the bytes `data`.
pub open spec fn identity_token(data: Seq<u8>) -> Seq<char> {
    truncated(sha1_hex(data), ID_DIGEST_LEN_MAX as nat)
}

/// The token that identifies content: the first `ID_DIGEST_LEN_MAX` digits
/// of its SHA-1 digest. It depends on the bytes alone, and is safe as the
/// name of a file.
pub fn content_token(data: &[u8]) -> (token: String)
    ensures
        token@ == identity_token(data@),
        is_hex_token(token@, ID_DIGEST_LEN_MAX as nat),
{
    let hex = hash(data);
    let token = truncate(hex.as_str(), ID_DIGEST_LEN_MAX);
    proof {
        assert forall|i: int| 0 <= i < token@.len() implies is_lower_hex(#[trigger] token@[i]) by {
            assert(token@[i] == hex@[i]);
        }
    }
    token
}

/// The parts of the directory name that a BLAKE3 hash gives: its first two
/// digits, its next two, and the other sixty.
pub open spec fn hash_parts(hex: Seq<char>) -> (Seq<char>, Seq<char>, Seq<char>) {
    (hex.subrange(0, 2), hex.subrange(2, 4), hex.subrange(4, hex.len() as int))
}

/// The BLAKE3 hash of `data`, cut into the three names under which content
/// with that hash is kept: two digits, two digits, sixty digits.
pub fn content_hash_parts(data: &[u8]) -> (parts: (String, String, String))
    ensures
        (parts.0@, parts.1@, parts.2@) == hash_parts(blake3_hex(data@)),
        is_hex_token(parts.0@, 2),
        is_hex_token(parts.1@, 2),
        is_hex_token(parts.2@, 60),
{
    let hex = blake3_hash_hex(data);
    let v = to_chars(hex.as_str());
    let a = copy_range(&v, 0, 2);
    let b = copy_range(&v, 2, 4);
    let c = copy_range(&v, 4, v.len());
    proof {
        assert forall|i: int| 0 <= i < a@.len() implies is_lower_hex(#[trigger] a@[i]) by {
            assert(a@[i] == hex@[i]);
        }
        assert forall|i: int| 0 <= i < b@.len() implies is_lower_hex(#[trigger] b@[i]) by {
            assert(b@[i] == hex@[i + 2]);
        }
        assert forall|i: int| 0 <= i < c@.len() implies is_lower_hex(#[trigger] c@[i]) by {
            assert(c@[i] == hex@[i + 4]);
        }
    }
    (from_chars(&a), from_chars(&b), from_chars(&c))
}

} // verus!
