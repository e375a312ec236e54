//! A character-level model of URL query strings: the query part of a URL
//! is everything after the first `?` and before any fragment, and its
//! parameters are the pieces between `&` separators.
//!
//! This model is what the signer's guarantee about query parameters is
//! stated over: signing keeps every original parameter and appends
//! exactly one `accessToken` parameter at the end of the query.

use vstd::prelude::*;

use crate::encode::is_lower_hex_char;
use crate::encode::lemma_hex_chars_shape;
use crate::sign::fragment_of;
use crate::sign::pre_fragment_of;
use crate::sign::signed_text_of;
use crate::sign::signed_url_of;
use crate::sign::token_of;
use crate::sign::url_normal_of;

verus! {

/// The index of the first occurrence of `c` in `s`, or `s.len()` when
/// `s` does not contain `c`.
pub open spec fn first_index_of(s: Seq<char>, c: char) -> int
    decreases s.len(),
{
    if s.len() == 0 {
        0
    } else if s[0] == c {
        0
    } else {
        1 + first_index_of(s.drop_first(), c)
    }
}

/// Basic facts about [`first_index_of`].
pub(crate) proof fn lemma_first_index(s: Seq<char>, c: char)
    ensures
        0 <= first_index_of(s, c) <= s.len(),
        s.contains(c) <==> first_index_of(s, c) < s.len(),
        first_index_of(s, c) < s.len() ==> s[first_index_of(s, c)] == c,
        forall|j: int| 0 <= j < first_index_of(s, c) ==> s[j] != c,
    decreases s.len(),
{
    if s.len() == 0 {
        assert(!s.contains(c));
    } else if s[0] == c {
        assert(s.contains(c)) by {
            assert(s[0] == c);
        }
    } else {
        lemma_first_index(s.drop_first(), c);
        let rest = s.drop_first();
        assert(s.contains(c) <==> rest.contains(c)) by {
            if s.contains(c) {
                let j = choose|j: int| 0 <= j < s.len() && s[j] == c;
                assert(rest[j - 1] == c);
                assert(rest.contains(c));
            }
            if rest.contains(c) {
                let j = choose|j: int| 0 <= j < rest.len() && rest[j] == c;
                assert(s[j + 1] == c);
                assert(s.contains(c));
            }
        }
        assert forall|j: int| 0 <= j < first_index_of(s, c) implies s[j] != c by {
            if j > 0 {
                assert(rest[j - 1] != c);
            }
        }
    }
}

/// Where the first occurrence of `c` falls in a concatenation.
pub(crate) proof fn lemma_first_index_concat(a: Seq<char>, b: Seq<char>, c: char)
    ensures
        a.contains(c) ==> first_index_of(a + b, c) == first_index_of(a, c),
        !a.contains(c) ==> first_index_of(a + b, c) == a.len() + first_index_of(b, c),
    decreases a.len(),
{
    lemma_first_index(a, c);
    if a.len() == 0 {
        assert(a + b =~= b);
    } else {
        if a[0] == c {
            assert((a + b)[0] == c);
        } else {
            assert((a + b)[0] == a[0]);
            lemma_first_index_concat(a.drop_first(), b, c);
            assert((a + b).drop_first() =~= a.drop_first() + b);
            lemma_first_index(a.drop_first(), c);
            if a.contains(c) {
                let j = choose|j: int| 0 <= j < a.len() && a[j] == c;
                assert(a.drop_first()[j - 1] == c);
                assert(a.drop_first().contains(c));
            } else {
                if a.drop_first().contains(c) {
                    let j = choose|j: int|
                        0 <= j < a.drop_first().len() && a.drop_first()[j] == c;
                    assert(a[j + 1] == c);
                    assert(a.contains(c));
                }
            }
        }
    }
}

/// A sequence made of pieces that do not hold `c` does not hold `c`.
proof fn lemma_not_contains_concat(a: Seq<char>, b: Seq<char>, c: char)
    requires
        !a.contains(c),
        !b.contains(c),
    ensures
        !(a + b).contains(c),
{
    if (a + b).contains(c) {
        let j = choose|j: int| 0 <= j < (a + b).len() && (a + b)[j] == c;
        if j < a.len() {
            assert(a[j] == c);
            assert(a.contains(c));
        } else {
            assert(b[j - a.len()] == c);
            assert(b.contains(c));
        }
    }
}

/// The query part of a URL: the text after the first `?` of its
/// pre-fragment part, if any.
pub open spec fn query_of(u: Seq<char>) -> Option<Seq<char>> {
    let h = pre_fragment_of(u);
    let i = first_index_of(h, '?');
    if 0 <= i && i < h.len() {
        Some(h.subrange(i + 1, h.len() as int))
    } else {
        None
    }
}

/// The parameters of a query string: the pieces between `&` separators.
pub open spec fn split_params(q: Seq<char>) -> Seq<Seq<char>>
    decreases q.len(),
{
    let i = first_index_of(q, '&');
    if 0 <= i && i < q.len() {
        seq![q.subrange(0, i)] + split_params(q.subrange(i + 1, q.len() as int))
    } else {
        seq![q]
    }
}

/// The parameters of a URL: the split of its query part, none if the URL
/// has no query.
pub open spec fn params_of(u: Seq<char>) -> Seq<Seq<char>> {
    match query_of(u) {
        Some(q) => split_params(q),
        None => Seq::empty(),
    }
}

/// Appending `&p` to a query string appends `p` to its parameter list,
/// when `p` itself contains no separator.
proof fn lemma_split_params_append(q: Seq<char>, p: Seq<char>)
    requires
        !p.contains('&'),
    ensures
        split_params(q + seq!['&'] + p) =~= split_params(q).push(p),
    decreases q.len(),
{
    let whole = q + seq!['&'] + p;
    let i = first_index_of(q, '&');
    lemma_first_index(q, '&');
    lemma_first_index(p, '&');
    lemma_first_index_concat(q, seq!['&'] + p, '&');
    assert(q + seq!['&'] + p =~= q + (seq!['&'] + p));
    if i < q.len() {
        assert(first_index_of(whole, '&') == i);
        assert(whole.subrange(0, i) =~= q.subrange(0, i));
        assert(whole.subrange(i + 1, whole.len() as int) =~= q.subrange(i + 1, q.len() as int)
            + seq!['&'] + p);
        lemma_split_params_append(q.subrange(i + 1, q.len() as int), p);
    } else {
        assert(first_index_of(seq!['&'] + p, '&') == 0) by {
            assert((seq!['&'] + p)[0] == '&');
        }
        assert(first_index_of(whole, '&') == q.len());
        assert(whole.len() == q.len() + 1 + p.len());
        assert(split_params(whole) == seq![whole.subrange(0, q.len() as int)] + split_params(
            whole.subrange(q.len() as int + 1, whole.len() as int),
        ));
        assert(whole.subrange(0, q.len() as int) =~= q);
        assert(whole.subrange(q.len() as int + 1, whole.len() as int) =~= p);
        assert(first_index_of(p, '&') == p.len());
        assert(split_params(p) == seq![p]);
        assert(split_params(whole) =~= seq![q] + seq![p]);
    }
}

/// The `accessToken` parameter appended when signing a URL whose
/// normalized rendering is `norm`: name, `=`, then the hex token.
pub open spec fn token_param_of(norm: Seq<char>, key: Seq<char>) -> Seq<char> {
    "accessToken="@ + token_of(norm, key)
}

/// The token parameter contains no separator, `?` or `#`.
proof fn lemma_token_param_plain(norm: Seq<char>, key: Seq<char>)
    ensures
        !token_param_of(norm, key).contains('&'),
        !token_param_of(norm, key).contains('?'),
        !token_param_of(norm, key).contains('#'),
{
    reveal_strlit("accessToken=");
    lemma_hex_chars_shape(crate::sign::hmac_sha256_of(key, norm));
    let p = token_param_of(norm, key);
    assert forall|j: int| 0 <= j < p.len() implies p[j] != '&' && p[j] != '?' && p[j] != '#' by {
        if j >= "accessToken="@.len() {
            assert(p[j] == token_of(norm, key)[j - "accessToken="@.len()]);
            assert(is_lower_hex_char(token_of(norm, key)[j - "accessToken="@.len()]));
        }
    }
    if p.contains('&') {
        let j = choose|j: int| 0 <= j < p.len() && p[j] == '&';
    }
    if p.contains('?') {
        let j = choose|j: int| 0 <= j < p.len() && p[j] == '?';
    }
    if p.contains('#') {
        let j = choose|j: int| 0 <= j < p.len() && p[j] == '#';
    }
}

/// The signed text splits at the fragment exactly as built: its
/// pre-fragment part is the original pre-fragment part with the token
/// parameter at the end of the query, and its fragment is unchanged.
proof fn lemma_signed_text_splits(norm: Seq<char>, key: Seq<char>)
    ensures
        ({
            let head = pre_fragment_of(norm);
            let sep: Seq<char> = if head.contains('?') {
                "&"@
            } else {
                "?"@
            };
            pre_fragment_of(signed_text_of(norm, key)) =~= head + sep + token_param_of(norm, key)
        }),
{
    reveal_strlit("accessToken=");
    reveal_strlit("&");
    reveal_strlit("?");
    let head = pre_fragment_of(norm);
    let frag = fragment_of(norm);
    let tp = token_param_of(norm, key);
    let sep: Seq<char> = if head.contains('?') {
        "&"@
    } else {
        "?"@
    };
    let signed = signed_text_of(norm, key);
    lemma_first_index(norm, '#');
    lemma_token_param_plain(norm, key);
    let a = head + sep + tp;
    assert(signed =~= a + frag);
    assert(!head.contains('#')) by {
        if head.contains('#') {
            let j = choose|j: int| 0 <= j < head.len() && head[j] == '#';
            assert(norm[j] == '#');
        }
    }
    assert(!sep.contains('#')) by {
        if sep.contains('#') {
            let j = choose|j: int| 0 <= j < sep.len() && sep[j] == '#';
        }
    }
    assert(!a.contains('#')) by {
        lemma_not_contains_concat(head, sep, '#');
        lemma_not_contains_concat(head + sep, tp, '#');
        assert(a =~= (head + sep) + tp);
    }
    lemma_first_index_concat(a, frag, '#');
    lemma_first_index(a, '#');
    if frag.len() == 0 {
        lemma_first_index(frag, '#');
        assert(first_index_of(signed, '#') == a.len());
        assert(pre_fragment_of(signed) =~= a);
    } else {
        assert(frag[0] == norm[first_index_of(norm, '#')]);
        assert(first_index_of(frag, '#') == 0) by {
            assert(frag[0] == '#');
        }
        assert(first_index_of(signed, '#') == a.len());
        assert(pre_fragment_of(signed) =~= a);
    }
}

/// Signing preserves all original query parameters and appends exactly
/// one `accessToken` parameter: the parameter list of the signed URL is
/// the parameter list of the normalized URL with the token parameter
/// appended at the end.
pub proof fn lemma_sign_appends_exactly_one_param(url: Seq<char>, key: Seq<char>)
    requires
        url_normal_of(url) is Some,
    ensures
        signed_url_of(url, key) matches Some(signed) && params_of(signed) =~= params_of(
            url_normal_of(url).unwrap(),
        ).push(token_param_of(url_normal_of(url).unwrap(), key)),
{
    reveal_strlit("accessToken=");
    reveal_strlit("&");
    reveal_strlit("?");
    let norm = url_normal_of(url).unwrap();
    let signed = signed_text_of(norm, key);
    let head = pre_fragment_of(norm);
    let tp = token_param_of(norm, key);
    let sep: Seq<char> = if head.contains('?') {
        "&"@
    } else {
        "?"@
    };
    lemma_token_param_plain(norm, key);
    lemma_signed_text_splits(norm, key);
    let hs = head + sep + tp;
    lemma_first_index(head, '?');
    if head.contains('?') {
        let i = first_index_of(head, '?');
        assert(hs =~= head + (sep + tp));
        lemma_first_index_concat(head, sep + tp, '?');
        assert(first_index_of(hs, '?') == i);
        let qn = head.subrange(i + 1, head.len() as int);
        assert(hs.subrange(i + 1, hs.len() as int) =~= qn + seq!['&'] + tp);
        lemma_split_params_append(qn, tp);
        assert(params_of(signed) =~= split_params(qn).push(tp));
        assert(params_of(norm) =~= split_params(qn));
    } else {
        assert(hs =~= head + (sep + tp));
        lemma_first_index_concat(head, sep + tp, '?');
        assert(first_index_of(sep + tp, '?') == 0) by {
            assert((sep + tp)[0] == '?');
        }
        assert(first_index_of(hs, '?') == head.len());
        assert(hs.subrange(head.len() as int + 1, hs.len() as int) =~= tp);
        lemma_first_index(tp, '&');
        assert(split_params(tp) == seq![tp]);
        assert(params_of(norm) =~= Seq::<Seq<char>>::empty());
        assert(params_of(signed) =~= seq![tp]);
    }
}

} // verus!
