//! The address of an internal RPC service, as dialled over TLS.
use vstd::prelude::*;
use crate::canonical::chars_of;

verus! {

/// `s` begins with `p`.
pub open spec fn starts_with(s: Seq<char>, p: Seq<char>) -> bool {
    p.len() <= s.len() && s.subrange(0, p.len() as int) == p
}

/// `s` with every occurrence of `pat`, taken from left to right without overlap,
/// replaced by `rep`.
pub open spec fn replace_all(s: Seq<char>, pat: Seq<char>, rep: Seq<char>) -> Seq<char>
    decreases s.len(),
{
    if s.len() == 0 || pat.len() == 0 {
        s
    } else if starts_with(s, pat) {
        rep + replace_all(s.skip(pat.len() as int), pat, rep)
    } else {
        seq![s[0]] + replace_all(s.drop_first(), pat, rep)
    }
}

pub open spec fn http_scheme() -> Seq<char> {
    seq!['h', 't', 't', 'p', ':', '/', '/']
}

pub open spec fn https_scheme() -> Seq<char> {
    seq!['h', 't', 't', 'p', 's', ':', '/', '/']
}

/// The URL dialled for `url`: kept when it is `https://`; an `http://` URL has each
/// `http://` in it turned into `https://`; any other gets `https://` put before it.
pub open spec fn secure_url(url: Seq<char>) -> Seq<char> {
    if starts_with(url, https_scheme()) {
        url
    } else if starts_with(url, http_scheme()) {
        replace_all(url, http_scheme(), https_scheme())
    } else {
        https_scheme() + url
    }
}

/// Whether `v[at..]` begins with `p`.
fn begins_at(v: &Vec<char>, at: usize, p: &Vec<char>) -> (r: bool)
    requires
        at <= v.len(),
    ensures
        r == starts_with(v@.skip(at as int), p@),
{
    if p.len() > v.len() - at {
        return false;
    }
    let mut k: usize = 0;
    while k < p.len()
        invariant
            at <= v.len(),
            p.len() <= v.len() - at,
            k <= p.len(),
            forall|j: int| 0 <= j < k ==> v@[at + j] == p@[j],
        decreases p.len() - k,
    {
        if v[at + k] != p[k] {
            assert(v@.skip(at as int).subrange(0, p.len() as int)[k as int] != p@[k as int]);
            return false;
        }
        k = k + 1;
    }
    assert(v@.skip(at as int).subrange(0, p.len() as int) =~= p@);
    true
}

/// The URL to dial for the service at `url`, always over `https`: an `https://` URL is
/// kept, each `http://` in an `http://` URL becomes `https://`, and a URL without either
/// scheme gets `https://` put before it.
pub fn secure_target_url(url: &str) -> (r: String)
    ensures
        r@ == secure_url(url@),
{
    let https = "https://";
    let http = "http://";
    proof {
        reveal_strlit("https://");
        reveal_strlit("http://");
    }
    assert(https@ =~= https_scheme());
    assert(http@ =~= http_scheme());
    let v = chars_of(url);
    let https_chars = chars_of(https);
    let http_chars = chars_of(http);
    if begins_at(&v, 0, &https_chars) {
        assert(v@.skip(0) =~= v@);
        return url.to_owned();
    }
    if !begins_at(&v, 0, &http_chars) {
        assert(v@.skip(0) =~= v@);
        return String::from_str(https).concat(url);
    }
    assert(v@.skip(0) =~= v@);
    let ghost target = replace_all(v@, http_scheme(), https_scheme());
    let mut out = String::new();
    let mut i: usize = 0;
    while i < v.len()
        invariant
            i <= v.len(),
            v@ == url@,
            https@ == https_scheme(),
            http_chars@ == http_scheme(),
            out@ + replace_all(v@.skip(i as int), http_scheme(), https_scheme()) == target,
        decreases v.len() - i,
    {
        let ghost rest = v@.skip(i as int);
        if begins_at(&v, i, &http_chars) {
            assert(rest.skip(7) =~= v@.skip(i + 7));
            assert(out@ + https@ + replace_all(v@.skip(i + 7), http_scheme(), https_scheme())
                =~= out@ + replace_all(rest, http_scheme(), https_scheme()));
            out = out.concat(https);
            i = i + 7;
        } else {
            let one = url.substring_char(i, i + 1);
            assert(one@ =~= seq![rest[0]]);
            assert(rest.drop_first() =~= v@.skip(i + 1));
            assert(out@ + one@ + replace_all(v@.skip(i + 1), http_scheme(), https_scheme())
                =~= out@ + replace_all(rest, http_scheme(), https_scheme()));
            out = out.concat(one);
            i = i + 1;
        }
    }
    assert(v@.skip(i as int) =~= Seq::<char>::empty());
    assert(out@ =~= target);
    out
}

} // verus!
