//! Canonical storage keys for addresses-of-record (AORs).
use vstd::prelude::*;

verus! {

/// The characters that `char::is_whitespace` accepts (Unicode `White_Space`).
pub open spec fn is_whitespace(c: char) -> bool {
    ||| '\t' <= c <= '\r'
    ||| c == ' '
    ||| c == '\u{85}'
    ||| c == '\u{A0}'
    ||| c == '\u{1680}'
    ||| '\u{2000}' <= c <= '\u{200A}'
    ||| c == '\u{2028}'
    ||| c == '\u{2029}'
    ||| c == '\u{202F}'
    ||| c == '\u{205F}'
    ||| c == '\u{3000}'
}

fn whitespace(c: char) -> (r: bool)
    ensures
        r == is_whitespace(c),
{
    ('\t' <= c && c <= '\r') || c == ' ' || c == '\u{85}' || c == '\u{A0}' || c == '\u{1680}'
        || ('\u{2000}' <= c && c <= '\u{200A}') || c == '\u{2028}' || c == '\u{2029}'
        || c == '\u{202F}' || c == '\u{205F}' || c == '\u{3000}'
}

/// The characters of `s`, one per element.
pub(crate) fn chars_of(s: &str) -> (v: Vec<char>)
    ensures
        v@ == s@,
{
    let mut v: Vec<char> = Vec::new();
    for c in it: s.chars()
        invariant
            v@ == it.seq().subrange(0, it.index() as int),
            it.seq() == s@,
    {
        v.push(c);
    }
    v
}

/// Position of the first `c` in `s` at or after `from`, or `s.len()` when there is none.
pub open spec fn find_from(s: Seq<char>, c: char, from: nat) -> nat
    decreases s.len() - from,
{
    if from >= s.len() {
        s.len()
    } else if s[from as int] == c {
        from
    } else {
        find_from(s, c, from + 1)
    }
}

/// Position of the first `c` in `s`, or `s.len()` when there is none.
pub open spec fn first_index_of(s: Seq<char>, c: char) -> nat {
    find_from(s, c, 0)
}

/// Position of the first character of `s` at or after `from` that is not whitespace,
/// or `s.len()` when there is none.
pub open spec fn skip_whitespace(s: Seq<char>, from: nat) -> nat
    decreases s.len() - from,
{
    if from >= s.len() {
        s.len()
    } else if !is_whitespace(s[from as int]) {
        from
    } else {
        skip_whitespace(s, from + 1)
    }
}

/// End of `s[lo..hi)` once its trailing whitespace is dropped.
pub open spec fn end_before_whitespace(s: Seq<char>, lo: nat, hi: nat) -> nat
    decreases hi,
{
    if hi <= lo {
        lo
    } else if !is_whitespace(s[hi - 1]) {
        hi
    } else {
        end_before_whitespace(s, lo, (hi - 1) as nat)
    }
}

/// Step 1: `s` without its leading and trailing whitespace.
pub open spec fn trim(s: Seq<char>) -> Seq<char> {
    let lo = skip_whitespace(s, 0);
    s.subrange(lo as int, end_before_whitespace(s, lo, s.len()) as int)
}

/// Step 2: when `s` holds a `<` with a `>` after it, what stands between the first `<`
/// and the first `>` after it (a display name before `<` is dropped); else `s`.
pub open spec fn unwrap_angle(s: Seq<char>) -> Seq<char> {
    let open = first_index_of(s, '<');
    let close = find_from(s, '>', open + 1);
    if close < s.len() {
        s.subrange(open + 1int, close as int)
    } else {
        s
    }
}

/// Length of the scheme `sip:` or `sips:` (in any case) that `s` begins with, else 0.
pub open spec fn scheme_len(s: Seq<char>) -> nat {
    if s.len() >= 4 && (s[0] == 's' || s[0] == 'S') && (s[1] == 'i' || s[1] == 'I') && (s[2]
        == 'p' || s[2] == 'P') && s[3] == ':' {
        4
    } else if s.len() >= 5 && (s[0] == 's' || s[0] == 'S') && (s[1] == 'i' || s[1] == 'I') && (
    s[2] == 'p' || s[2] == 'P') && (s[3] == 's' || s[3] == 'S') && s[4] == ':' {
        5
    } else {
        0
    }
}

/// Step 3: `s` without a leading `sip:` or `sips:` scheme.
pub open spec fn strip_scheme(s: Seq<char>) -> Seq<char> {
    s.subrange(scheme_len(s) as int, s.len() as int)
}

/// Step 4: `s` up to its first `;`, dropping the URI parameters.
pub open spec fn drop_params(s: Seq<char>) -> Seq<char> {
    s.subrange(0, first_index_of(s, ';') as int)
}

/// Step 5: `s` up to its first `@`.
pub open spec fn user_part(s: Seq<char>) -> Seq<char> {
    s.subrange(0, first_index_of(s, '@') as int)
}

/// The user-identifying token of an AOR (steps 1 to 5); empty when it has none.
pub open spec fn user_token(aor: Seq<char>) -> Seq<char> {
    user_part(drop_params(strip_scheme(unwrap_angle(trim(aor)))))
}

/// What follows the namespace in the key of `aor`: its user token, or, when that is
/// empty, the AOR itself as given (step 6).
pub open spec fn key_material(aor: Seq<char>) -> Seq<char> {
    if user_token(aor).len() == 0 {
        aor
    } else {
        user_token(aor)
    }
}

/// The namespace that every registration key begins with.
pub open spec fn key_namespace() -> Seq<char> {
    seq!['s', 'i', 'p', '_', 'r', 'e', 'g', ':']
}

/// The canonical storage key of `aor` (step 7).
pub open spec fn canonical_key(aor: Seq<char>) -> Seq<char> {
    key_namespace() + key_material(aor)
}

/// Position, relative to `lo`, of the first `c` in `v[lo..hi)` at or after `lo + from`.
fn find_in(v: &Vec<char>, lo: usize, hi: usize, c: char, from: usize) -> (r: usize)
    requires
        lo <= hi <= v.len(),
        from <= hi - lo,
    ensures
        r == find_from(v@.subrange(lo as int, hi as int), c, from as nat),
        from <= r <= hi - lo,
{
    let ghost w = v@.subrange(lo as int, hi as int);
    let mut i: usize = from;
    while i < hi - lo
        invariant
            lo <= hi <= v.len(),
            from <= i <= hi - lo,
            w == v@.subrange(lo as int, hi as int),
            find_from(w, c, i as nat) == find_from(w, c, from as nat),
        decreases hi - lo - i,
    {
        if v[lo + i] == c {
            return i;
        }
        i = i + 1;
    }
    i
}

/// Step 1 on the window `v[lo..hi)`: the window of what remains.
fn trim_window(v: &Vec<char>, lo: usize, hi: usize) -> (r: (usize, usize))
    requires
        lo <= hi <= v.len(),
    ensures
        lo <= r.0 <= r.1 <= hi,
        v@.subrange(r.0 as int, r.1 as int) == trim(v@.subrange(lo as int, hi as int)),
{
    let ghost w = v@.subrange(lo as int, hi as int);
    let mut a: usize = 0;
    while a < hi - lo
        invariant
            lo <= hi <= v.len(),
            a <= hi - lo,
            w == v@.subrange(lo as int, hi as int),
            skip_whitespace(w, a as nat) == skip_whitespace(w, 0),
        ensures
            a <= hi - lo,
            skip_whitespace(w, a as nat) == skip_whitespace(w, 0),
            a == hi - lo || !is_whitespace(w[a as int]),
        decreases hi - lo - a,
    {
        if !whitespace(v[lo + a]) {
            break;
        }
        a = a + 1;
    }
    let mut b: usize = hi - lo;
    while b > a
        invariant
            lo <= hi <= v.len(),
            a <= b <= hi - lo,
            w == v@.subrange(lo as int, hi as int),
            end_before_whitespace(w, a as nat, b as nat) == end_before_whitespace(
                w,
                a as nat,
                w.len(),
            ),
        ensures
            a <= b <= hi - lo,
            end_before_whitespace(w, a as nat, b as nat) == end_before_whitespace(
                w,
                a as nat,
                w.len(),
            ),
            b == a || !is_whitespace(w[b - 1]),
        decreases b,
    {
        if !whitespace(v[lo + b - 1]) {
            break;
        }
        b = b - 1;
    }
    assert(v@.subrange(lo + a, lo + b) =~= w.subrange(a as int, b as int));
    (lo + a, lo + b)
}

/// Step 2 on the window `v[lo..hi)`.
fn unwrap_angle_window(v: &Vec<char>, lo: usize, hi: usize) -> (r: (usize, usize))
    requires
        lo <= hi <= v.len(),
    ensures
        lo <= r.0 <= r.1 <= hi,
        v@.subrange(r.0 as int, r.1 as int) == unwrap_angle(v@.subrange(lo as int, hi as int)),
{
    let ghost w = v@.subrange(lo as int, hi as int);
    let open = find_in(v, lo, hi, '<', 0);
    if open == hi - lo {
        return (lo, hi);
    }
    let close = find_in(v, lo, hi, '>', open + 1);
    if close < hi - lo {
        assert(v@.subrange(lo + open + 1, lo + close) =~= w.subrange(open + 1, close as int));
        (lo + open + 1, lo + close)
    } else {
        (lo, hi)
    }
}

/// Whether `c` is the ASCII letter `lower` in either case.
fn letter_ci(c: char, lower: char, upper: char) -> (r: bool)
    ensures
        r == (c == lower || c == upper),
{
    c == lower || c == upper
}

/// Step 3 on the window `v[lo..hi)`.
fn strip_scheme_window(v: &Vec<char>, lo: usize, hi: usize) -> (r: usize)
    requires
        lo <= hi <= v.len(),
    ensures
        lo <= r <= hi,
        v@.subrange(r as int, hi as int) == strip_scheme(v@.subrange(lo as int, hi as int)),
{
    let ghost w = v@.subrange(lo as int, hi as int);
    let n = hi - lo;
    let mut skip: usize = 0;
    if n >= 4 && letter_ci(v[lo], 's', 'S') && letter_ci(v[lo + 1], 'i', 'I') && letter_ci(
        v[lo + 2],
        'p',
        'P',
    ) {
        if v[lo + 3] == ':' {
            skip = 4;
        } else if n >= 5 && letter_ci(v[lo + 3], 's', 'S') && v[lo + 4] == ':' {
            skip = 5;
        }
    }
    assert(skip == scheme_len(w));
    assert(v@.subrange(lo + skip, hi as int) =~= w.subrange(skip as int, w.len() as int));
    lo + skip
}

/// Steps 4 and 5 on the window `v[lo..hi)`: the end of what stands before the first `c`.
fn before_window(v: &Vec<char>, lo: usize, hi: usize, c: char) -> (r: usize)
    requires
        lo <= hi <= v.len(),
    ensures
        lo <= r <= hi,
        v@.subrange(lo as int, r as int) == v@.subrange(lo as int, hi as int).subrange(
            0,
            first_index_of(v@.subrange(lo as int, hi as int), c) as int,
        ),
{
    let at = find_in(v, lo, hi, c, 0);
    assert(v@.subrange(lo as int, lo + at) =~= v@.subrange(lo as int, hi as int).subrange(
        0,
        at as int,
    ));
    lo + at
}

/// The window of `v` that holds the user token of the AOR `v`.
fn user_token_window(v: &Vec<char>) -> (r: (usize, usize))
    ensures
        r.0 <= r.1 <= v.len(),
        v@.subrange(r.0 as int, r.1 as int) == user_token(v@),
{
    assert(v@.subrange(0, v.len() as int) =~= v@);
    let (a, b) = trim_window(v, 0, v.len());
    let (c, d) = unwrap_angle_window(v, a, b);
    let e = strip_scheme_window(v, c, d);
    let f = before_window(v, e, d, ';');
    let g = before_window(v, e, f, '@');
    (e, g)
}

/// The user-identifying token of `aor`: the part before `@`, after surrounding whitespace,
/// angle brackets, the `sip:`/`sips:` scheme and URI parameters are dropped. Empty when the
/// AOR carries no such token.
pub fn extract_username(aor: &str) -> (r: String)
    ensures
        r@ == user_token(aor@),
{
    let v = chars_of(aor);
    let (lo, hi) = user_token_window(&v);
    aor.substring_char(lo, hi).to_owned()
}

/// The canonical storage key of `aor`: `sip_reg:` followed by its user token, or by `aor`
/// itself, unchanged, when it has no user token. Never fails.
pub fn canonicalize(aor: &str) -> (key: String)
    ensures
        key@ == canonical_key(aor@),
{
    let v = chars_of(aor);
    let (lo, hi) = user_token_window(&v);
    let material = if lo < hi {
        aor.substring_char(lo, hi)
    } else {
        aor
    };
    let namespace = String::from_str("sip_reg:");
    proof {
        reveal_strlit("sip_reg:");
    }
    assert(namespace@ =~= key_namespace());
    namespace.concat(material)
}

/// `find_from(s, c, from)` is the first position at or after `from` that holds `c`.
proof fn lemma_find_from(s: Seq<char>, c: char, from: nat)
    requires
        from <= s.len(),
    ensures
        from <= find_from(s, c, from) <= s.len(),
        forall|k: int| from <= k < find_from(s, c, from) ==> s[k] != c,
        find_from(s, c, from) < s.len() ==> s[find_from(s, c, from) as int] == c,
    decreases s.len() - from,
{
    if from < s.len() && s[from as int] != c {
        lemma_find_from(s, c, from + 1);
    }
}

/// A position `p` at or after `from` such that `c` stands at `p` (or `p` is the end) and
/// nowhere from `from` up to `p` is `find_from(s, c, from)`.
proof fn lemma_find_from_at(s: Seq<char>, c: char, from: nat, p: nat)
    requires
        from <= p <= s.len(),
        forall|k: int| from <= k < p ==> s[k] != c,
        p < s.len() ==> s[p as int] == c,
    ensures
        find_from(s, c, from) == p,
    decreases p - from,
{
    if from < p {
        lemma_find_from_at(s, c, from + 1, p);
    }
}

/// `end_before_whitespace(s, lo, hi)` is the end of `s[lo..hi)` once its trailing
/// whitespace is dropped.
proof fn lemma_end_before_whitespace(s: Seq<char>, lo: nat, hi: nat)
    requires
        lo <= hi <= s.len(),
    ensures
        lo <= end_before_whitespace(s, lo, hi) <= hi,
        forall|k: int| end_before_whitespace(s, lo, hi) <= k < hi ==> is_whitespace(s[k]),
        end_before_whitespace(s, lo, hi) == lo || !is_whitespace(
            s[end_before_whitespace(s, lo, hi) - 1],
        ),
    decreases hi,
{
    if hi > lo && is_whitespace(s[hi - 1]) {
        lemma_end_before_whitespace(s, lo, (hi - 1) as nat);
    }
}

/// `s` holds no `<` with a `>` after it.
pub open spec fn no_angle_pair(s: Seq<char>) -> bool {
    forall|i: int, j: int| 0 <= i < j < s.len() && s[i] == '<' ==> s[j] != '>'
}

/// Step 2 leaves a sequence without a `<`...`>` pair as it is.
proof fn lemma_unwrap_without_pair(s: Seq<char>)
    requires
        no_angle_pair(s),
    ensures
        unwrap_angle(s) == s,
{
    lemma_find_from(s, '<', 0);
    let open = first_index_of(s, '<');
    if open < s.len() {
        lemma_find_from(s, '>', open + 1);
    }
}

/// What step 2 leaves holds no `<`...`>` pair.
proof fn lemma_unwrap_leaves_no_pair(s: Seq<char>)
    ensures
        no_angle_pair(unwrap_angle(s)),
{
    lemma_find_from(s, '<', 0);
    let open = first_index_of(s, '<');
    if open < s.len() {
        lemma_find_from(s, '>', open + 1);
    }
}

/// Steps 4 and 5 keep the user part of `user@rest` when `user` holds no `@` or `;`.
proof fn lemma_user_before_at(user: Seq<char>, rest: Seq<char>)
    requires
        forall|i: int| 0 <= i < user.len() ==> user[i] != '@' && user[i] != ';',
    ensures
        user_part(drop_params(user + seq!['@'] + rest)) == user,
{
    let r = user + seq!['@'] + rest;
    lemma_find_from(r, ';', 0);
    let q = first_index_of(r, ';');
    assert(q > user.len()) by {
        if q <= user.len() {
            assert(r[q as int] == ';');
        }
    }
    let d = r.subrange(0, q as int);
    assert(d == drop_params(r));
    lemma_find_from_at(d, '@', 0, user.len());
    assert(d.subrange(0, user.len() as int) =~= user);
}

/// A user part that an AOR's key keeps as it is: not empty, free of `@`, `;`, `<` and
/// `>`, not starting with whitespace nor with a `sip:` or `sips:` scheme.
pub open spec fn well_formed_user(user: Seq<char>) -> bool {
    &&& user.len() > 0
    &&& forall|i: int|
        0 <= i < user.len() ==> user[i] != '@' && user[i] != ';' && user[i] != '<' && user[i]
            != '>'
    &&& !is_whitespace(user[0])
    &&& scheme_len(user) == 0
}

/// A host part that holds no `<` with a `>` after it.
pub open spec fn well_formed_host(host: Seq<char>) -> bool {
    no_angle_pair(host)
}

/// The user token of `user@host`, for a well-formed user and host, is `user`; so is
/// that of any `pre` + `user@host` that begins, after trimming, with the scheme `pre`.
proof fn lemma_token_of_plain_form(pre: Seq<char>, user: Seq<char>, host: Seq<char>)
    requires
        pre == Seq::<char>::empty() || pre == seq!['s', 'i', 'p', ':'],
        well_formed_user(user),
        well_formed_host(host),
    ensures
        user_token(pre + user + seq!['@'] + host) == user,
{
    let s = pre + user + seq!['@'] + host;
    let at = pre.len() + user.len();
    assert(s[at as int] == '@');
    assert(!is_whitespace(s[0]));
    lemma_end_before_whitespace(s, 0, s.len());
    let e = end_before_whitespace(s, 0, s.len());
    assert(e > at) by {
        if e <= at {
            assert(is_whitespace(s[at as int]));
        }
    }
    let t = s.subrange(0, e as int);
    assert(trim(s) == t);
    let host_kept = host.subrange(0, e - at - 1);
    assert(t =~= pre + user + seq!['@'] + host_kept);
    assert(no_angle_pair(t)) by {
        assert forall|i: int, j: int| 0 <= i < j < t.len() && t[i] == '<' implies t[j] != '>' by {
            assert(i > at);
            assert(host[i - at - 1] == '<');
        }
    }
    lemma_unwrap_without_pair(t);
    let rest = user + seq!['@'] + host_kept;
    if pre.len() == 0 {
        assert(t =~= rest);
        assert(scheme_len(t) == 0) by {
            assert(t[user.len() as int] == '@');
            if user.len() >= 5 {
                assert(t.subrange(0, 5) =~= user.subrange(0, 5));
            } else if user.len() == 4 {
                assert(t.subrange(0, 4) =~= user.subrange(0, 4));
            }
        }
    } else {
        assert(scheme_len(t) == 4);
    }
    assert(strip_scheme(t) =~= rest);
    lemma_user_before_at(user, host_kept);
}

/// The user token of `<sip:user@host>;tag=1`, for a well-formed user, is `user`.
proof fn lemma_token_of_bracketed_form(user: Seq<char>, host: Seq<char>)
    requires
        well_formed_user(user),
    ensures
        user_token(
            seq!['<', 's', 'i', 'p', ':'] + user + seq!['@'] + host + seq![
                '>',
                ';',
                't',
                'a',
                'g',
                '=',
                '1',
            ],
        ) == user,
{
    let s = seq!['<', 's', 'i', 'p', ':'] + user + seq!['@'] + host + seq![
        '>',
        ';',
        't',
        'a',
        'g',
        '=',
        '1',
    ];
    let at = 5 + user.len();
    let gt = at + 1 + host.len();
    assert(s[at as int] == '@');
    assert(s[gt as int] == '>');
    assert(s[s.len() - 1] == '1');
    assert(trim(s) =~= s);
    assert(first_index_of(s, '<') == 0);
    lemma_find_from(s, '>', 1);
    let close = find_from(s, '>', 1);
    assert(close > at) by {
        if close <= at {
            assert(s[close as int] == '>');
        }
    }
    assert(close <= gt) by {
        if close > gt {
            assert(s[gt as int] != '>');
        }
    }
    let host_kept = host.subrange(0, close - at - 1);
    let inner = s.subrange(1, close as int);
    assert(unwrap_angle(s) == inner);
    assert(inner =~= seq!['s', 'i', 'p', ':'] + user + seq!['@'] + host_kept);
    assert(scheme_len(inner) == 4);
    assert(strip_scheme(inner) =~= user + seq!['@'] + host_kept);
    lemma_user_before_at(user, host_kept);
}

/// For a well-formed user and host, `<sip:user@host>;tag=1`, `sip:user@host` and
/// `user@host` all have the key `sip_reg:user`.
pub proof fn lemma_aor_forms_share_key(user: Seq<char>, host: Seq<char>)
    requires
        well_formed_user(user),
        well_formed_host(host),
    ensures
        canonical_key(
            seq!['<', 's', 'i', 'p', ':'] + user + seq!['@'] + host + seq![
                '>',
                ';',
                't',
                'a',
                'g',
                '=',
                '1',
            ],
        ) == key_namespace() + user,
        canonical_key(seq!['s', 'i', 'p', ':'] + user + seq!['@'] + host) == key_namespace()
            + user,
        canonical_key(user + seq!['@'] + host) == key_namespace() + user,
{
    lemma_token_of_bracketed_form(user, host);
    lemma_token_of_plain_form(seq!['s', 'i', 'p', ':'], user, host);
    lemma_token_of_plain_form(Seq::<char>::empty(), user, host);
    assert(Seq::<char>::empty() + user =~= user);
}

/// `skip_whitespace(s, from)` stays within `s`, at or after `from`.
proof fn lemma_skip_whitespace(s: Seq<char>, from: nat)
    requires
        from <= s.len(),
    ensures
        from <= skip_whitespace(s, from) <= s.len(),
    decreases s.len() - from,
{
    if from < s.len() && is_whitespace(s[from as int]) {
        lemma_skip_whitespace(s, from + 1);
    }
}

/// `s` holds no `c`.
pub open spec fn lacks(s: Seq<char>, c: char) -> bool {
    forall|i: int| 0 <= i < s.len() ==> s[i] != c
}

/// Steps 4 and 5 leave a sequence without `;` and `@` as it is.
proof fn lemma_plain_user_part(w: Seq<char>)
    requires
        lacks(w, ';'),
        lacks(w, '@'),
    ensures
        user_part(drop_params(w)) == w,
{
    lemma_find_from_at(w, ';', 0, w.len());
    assert(drop_params(w) =~= w);
    lemma_find_from_at(w, '@', 0, w.len());
    assert(user_part(w) =~= w);
}

/// A user token holds no `;`, no `@` and no `<`...`>` pair; so a second pass over it
/// only trims it and strips a scheme.
proof fn lemma_token_of_token(aor: Seq<char>)
    ensures
        lacks(user_token(aor), ';'),
        lacks(user_token(aor), '@'),
        no_angle_pair(user_token(aor)),
        user_token(user_token(aor)) == strip_scheme(trim(user_token(aor))),
{
    let s = trim(aor);
    let u = unwrap_angle(s);
    lemma_unwrap_leaves_no_pair(s);
    let v = strip_scheme(u);
    lemma_find_from(v, ';', 0);
    let d = drop_params(v);
    lemma_find_from(d, '@', 0);
    let t = user_part(d);
    assert(lacks(t, ';'));
    assert(lacks(t, '@'));
    assert(no_angle_pair(t)) by {
        assert forall|i: int, j: int| 0 <= i < j < t.len() && t[i] == '<' implies t[j] != '>' by {
            assert(u[i + scheme_len(u)] == '<');
        }
    }
    lemma_skip_whitespace(t, 0);
    let lo = skip_whitespace(t, 0);
    lemma_end_before_whitespace(t, lo, t.len());
    let tt = trim(t);
    assert(no_angle_pair(tt)) by {
        assert forall|i: int, j: int| 0 <= i < j < tt.len() && tt[i] == '<' implies tt[j] != '>' by {
            assert(t[i + lo] == '<');
        }
    }
    lemma_unwrap_without_pair(tt);
    let w = strip_scheme(tt);
    assert(lacks(w, ';')) by {
        assert forall|i: int| 0 <= i < w.len() implies w[i] != ';' by {
            assert(t[i + scheme_len(tt) + lo] != ';');
        }
    }
    assert(lacks(w, '@')) by {
        assert forall|i: int| 0 <= i < w.len() implies w[i] != '@' by {
            assert(t[i + scheme_len(tt) + lo] != '@');
        }
    }
    lemma_plain_user_part(w);
}

/// A user token that a second pass leaves as it is: no surrounding whitespace and no
/// leading scheme.
pub open spec fn is_bare_token(t: Seq<char>) -> bool {
    trim(t) == t && scheme_len(t) == 0
}

/// What follows the namespace in the key of `aor`, read back as an AOR, has the same
/// key. This holds whenever `aor` falls back to itself, and whenever its user token is
/// bare or a second pass over the token finds nothing; it fails only for a token that
/// keeps surrounding whitespace or a second scheme, such as that of `sip:sip:bob@h`.
pub proof fn lemma_key_material_keys_alike(aor: Seq<char>)
    requires
        user_token(aor).len() == 0 || is_bare_token(user_token(aor)) || strip_scheme(
            trim(user_token(aor)),
        ).len() == 0,
    ensures
        canonical_key(key_material(aor)) == canonical_key(aor),
{
    let t = user_token(aor);
    if t.len() > 0 {
        lemma_token_of_token(aor);
        if is_bare_token(t) {
            assert(strip_scheme(trim(t)) =~= t);
        }
    }
}

} // verus!
