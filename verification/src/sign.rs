//! The request signer: HMAC-SHA256 over the URL's normalized rendering,
//! hex-encoded and appended to that rendering as the `accessToken` query
//! parameter, before any fragment.
//!
//! The signature has no expiry and depends only on the URL text and the
//! key, so the same inputs always yield the same signed URL. The message
//! that is signed is the full rendering of the parsed URL — scheme,
//! host, path and any existing query, exactly the text the token is
//! appended to — so the remote verifier sees the same bytes.

use vstd::prelude::*;
use vstd::string::*;

use crate::encode::hex_chars_of;
use crate::encode::hex_encode;
use crate::encode::is_lower_hex_char;
use crate::encode::lemma_hex_chars_shape;
use crate::error::AssCliError;
use crate::error::AssCliErrorKind;
use crate::querystr::first_index_of;
use crate::querystr::lemma_first_index;

verus! {

/// The HMAC-SHA256 tag for a key and a message, both given as text.
pub uninterp spec fn hmac_sha256_of(key: Seq<char>, msg: Seq<char>) -> Seq<u8>;

/// Relies on `ring::hmac::sign` with `HMAC_SHA256`: the tag is a function
/// of the key and the message alone, and is 32 bytes long (the SHA-256
/// output length).
#[verifier::external_body]
fn hmac_sha256(key: &str, msg: &str) -> (r: Vec<u8>)
    ensures
        r@ == hmac_sha256_of(key@, msg@),
        r@.len() == 32,
{
    let k = ring::hmac::Key::new(ring::hmac::HMAC_SHA256, key.as_bytes());
    let tag = ring::hmac::sign(&k, msg.as_bytes());
    tag.as_ref().to_vec()
}

/// The normalized rendering of an absolute URL, or `None` when the text
/// does not parse as one.
pub uninterp spec fn url_normal_of(s: Seq<char>) -> Option<Seq<char>>;

/// Relies on `url::Url::parse`: parsing succeeds exactly on absolute URLs
/// and its rendering is a function of the text alone.
#[verifier::external_body]
pub(crate) fn parse_url(s: &str) -> (r: Option<String>)
    ensures
        r is Some <==> url_normal_of(s@) is Some,
        r matches Some(u) ==> url_normal_of(s@) == Some(u@),
{
    match url::Url::parse(s) {
        Ok(u) => Some(String::from_str(u.as_str())),
        Err(_) => None,
    }
}

/// Whether `s` contains the character `c`.
fn str_contains_char(s: &str, c: char) -> (r: bool)
    ensures
        r == s@.contains(c),
{
    let len = s.unicode_len();
    let mut i: usize = 0;
    while i < len
        invariant
            i <= len,
            len == s@.len(),
            forall|j: int| 0 <= j < i ==> s@[j] != c,
        decreases len - i,
    {
        if s.get_char(i) == c {
            assert(s@.contains(c)) by {
                assert(s@[i as int] == c);
            }
            return true;
        }
        i = i + 1;
    }
    false
}

/// The index of the first occurrence of `c` in `s`, or its length when
/// `s` does not contain `c`.
fn str_first_index(s: &str, c: char) -> (r: usize)
    ensures
        r == first_index_of(s@, c),
{
    let len = s.unicode_len();
    let mut i: usize = 0;
    while i < len
        invariant
            i <= len,
            len == s@.len(),
            forall|j: int| 0 <= j < i ==> s@[j] != c,
        decreases len - i,
    {
        if s.get_char(i) == c {
            proof {
                lemma_first_index(s@, c);
                let fi = first_index_of(s@, c);
                assert(s@.contains(c)) by {
                    assert(s@[i as int] == c);
                }
                if fi < i {
                    assert(s@[fi] != c);
                }
                if fi > i {
                    assert(s@[i as int] != c);
                }
            }
            return i;
        }
        i = i + 1;
    }
    proof {
        lemma_first_index(s@, c);
        if s@.contains(c) {
            let j = choose|j: int| 0 <= j < s@.len() && s@[j] == c;
            assert(s@[j] != c);
        }
    }
    len
}

/// The signature token for a message under a key: the lowercase hex
/// rendering of the HMAC-SHA256 tag of the message text. The message is
/// the URL's normalized rendering.
pub open spec fn token_of(msg: Seq<char>, key: Seq<char>) -> Seq<char> {
    hex_chars_of(hmac_sha256_of(key, msg))
}

/// A 64-character lowercase hex string, the shape of every token.
pub open spec fn token_is_hex64(t: Seq<char>) -> bool {
    t.len() == 64 && forall|i: int| 0 <= i < t.len() ==> is_lower_hex_char(#[trigger] t[i])
}

/// The part of a URL's rendering before its fragment: everything up to
/// the first `#`, or the whole text when there is none.
pub open spec fn pre_fragment_of(u: Seq<char>) -> Seq<char> {
    u.subrange(0, first_index_of(u, '#'))
}

/// The fragment of a URL's rendering: everything from the first `#` on,
/// empty when there is none.
pub open spec fn fragment_of(u: Seq<char>) -> Seq<char> {
    u.subrange(first_index_of(u, '#'), u.len() as int)
}

/// The signed text of a normalized URL under a key: one `accessToken`
/// parameter whose value is the token over the whole rendering, placed
/// at the end of the query — before the fragment, if there is one.
pub open spec fn signed_text_of(norm: Seq<char>, key: Seq<char>) -> Seq<char> {
    pre_fragment_of(norm) + (if pre_fragment_of(norm).contains('?') {
        "&"@
    } else {
        "?"@
    }) + "accessToken="@ + token_of(norm, key) + fragment_of(norm)
}

/// The signed form of a URL under a key: the signed text of its
/// normalized rendering, or `None` when the text is not an absolute URL.
pub open spec fn signed_url_of(url: Seq<char>, key: Seq<char>) -> Option<Seq<char>> {
    match url_normal_of(url) {
        Some(norm) => Some(signed_text_of(norm, key)),
        None => None,
    }
}

/// Signs `url` with `key`. Fails with `UrlParseError` exactly when the
/// text does not parse as an absolute URL; otherwise the result is the
/// signed URL, whose token is a 64-character lowercase hex string.
pub fn sign_url_string(url: &str, key: &str) -> (r: Result<String, AssCliError>)
    ensures
        match r {
            Ok(s) => Some(s@) == signed_url_of(url@, key@) && token_is_hex64(
                token_of(url_normal_of(url@).unwrap(), key@),
            ),
            Err(e) => signed_url_of(url@, key@) is None && e.kind
                == AssCliErrorKind::UrlParseError,
        },
{
    match parse_url(url) {
        None => Err(AssCliError::url_parse_error()),
        Some(norm) => {
            let tag = hmac_sha256(key, norm.as_str());
            let token = hex_encode(&tag);
            proof {
                lemma_hex_chars_shape(tag@);
                lemma_first_index(norm@, '#');
            }
            let len = norm.as_str().unicode_len();
            let hi = str_first_index(norm.as_str(), '#');
            let head = String::from_str(norm.as_str().substring_char(0, hi));
            let frag = String::from_str(norm.as_str().substring_char(hi, len));
            let has_query = str_contains_char(head.as_str(), '?');
            let mut out = head;
            if has_query {
                out.append("&");
            } else {
                out.append("?");
            }
            out.append("accessToken=");
            out.append(token.as_str());
            out.append(frag.as_str());
            proof {
                assert(out@ =~= signed_text_of(norm@, key@));
            }
            Ok(out)
        },
    }
}

/// Signing is deterministic and pure: the signed URL is a function of the
/// URL text and the key alone, so signing the same URL with the same key
/// always yields the same result.
pub proof fn lemma_signing_deterministic(
    u1: Seq<char>,
    k1: Seq<char>,
    u2: Seq<char>,
    k2: Seq<char>,
)
    requires
        u1 == u2,
        k1 == k2,
    ensures
        signed_url_of(u1, k1) == signed_url_of(u2, k2),
{
}

} // verus!
