//! The query-string grammar the credential guard reads, over the raw bytes
//! of the query: components joined by `&`, each split at its first `=` (a
//! component without one carries an empty value), with `+` standing for a
//! space and `%` followed by two hex digits standing for that byte; a broken
//! escape stands for itself. Empty components and unknown keys are ignored.
//! A query presents credentials exactly when it names each of `username`
//! and `password` once; a second occurrence of either makes it malformed.

use vstd::prelude::*;
use vstd::string::StringSliceAdditionalSpecFns;
use vstd::string::StrSliceExecFns;

verus! {

/// Whether `b` is the ASCII code of a hexadecimal digit, of either case.
pub open spec fn is_hex_digit(b: u8) -> bool {
    (48 <= b && b <= 57) || (97 <= b && b <= 102) || (65 <= b && b <= 70)
}

/// The value of a hexadecimal digit.
pub open spec fn hex_value(b: u8) -> int {
    if 48 <= b && b <= 57 {
        b - 48
    } else if 97 <= b && b <= 102 {
        b - 97 + 10
    } else {
        b - 65 + 10
    }
}

/// The components of `s` between `&` separators, in order. The empty query
/// has one empty component; recursion is on the last byte, so a
/// left-to-right scan grows the result one step per byte.
pub open spec fn split_amp(s: Seq<u8>) -> Seq<Seq<u8>>
    decreases s.len(),
{
    if s.len() == 0 {
        seq![Seq::<u8>::empty()]
    } else {
        let pre = split_amp(s.drop_last());
        if s.last() == 38 {
            pre.push(Seq::<u8>::empty())
        } else {
            pre.update(pre.len() - 1, pre.last().push(s.last()))
        }
    }
}

/// Every split has at least one component.
pub proof fn lemma_split_amp_nonempty(s: Seq<u8>)
    ensures
        split_amp(s).len() >= 1,
    decreases s.len(),
{
    if s.len() > 0 {
        lemma_split_amp_nonempty(s.drop_last());
    }
}

/// Splits a component at its first `=` into the raw key and raw value; a
/// component without `=` is all key with an empty value.
pub open spec fn split_eq(p: Seq<u8>) -> (Seq<u8>, Seq<u8>)
    decreases p.len(),
{
    if p.len() == 0 {
        (Seq::<u8>::empty(), Seq::<u8>::empty())
    } else if p[0] == 61 {
        (Seq::<u8>::empty(), p.drop_first())
    } else {
        let kv = split_eq(p.drop_first());
        (seq![p[0]] + kv.0, kv.1)
    }
}

/// `split_eq` splits exactly at the first `=`.
pub proof fn lemma_split_eq_at(p: Seq<u8>, pos: int)
    requires
        0 <= pos < p.len(),
        p[pos] == 61,
        forall|j: int| 0 <= j < pos ==> p[j] != 61,
    ensures
        split_eq(p) == (p.subrange(0, pos), p.subrange(pos + 1, p.len() as int)),
    decreases pos,
{
    if pos == 0 {
        assert(p.subrange(0, 0) =~= Seq::<u8>::empty());
        assert(p.drop_first() =~= p.subrange(1, p.len() as int));
    } else {
        let q = p.drop_first();
        lemma_split_eq_at(q, pos - 1);
        assert(seq![p[0]] + q.subrange(0, pos - 1) =~= p.subrange(0, pos));
        assert(q.subrange(pos, q.len() as int) =~= p.subrange(pos + 1, p.len() as int));
    }
}

/// Without an `=`, the whole component is the key and the value is empty.
pub proof fn lemma_split_eq_none(p: Seq<u8>)
    requires
        forall|j: int| 0 <= j < p.len() ==> p[j] != 61,
    ensures
        split_eq(p) == (p, Seq::<u8>::empty()),
    decreases p.len(),
{
    if p.len() == 0 {
    } else {
        lemma_split_eq_none(p.drop_first());
        assert(seq![p[0]] + p.drop_first() =~= p);
    }
}

/// Decodes one raw key or value: `+` becomes a space, `%` followed by two
/// hex digits becomes that byte, and every other byte — a `%` of a broken
/// escape included — stands for itself.
pub open spec fn decode_component(s: Seq<u8>) -> Seq<u8>
    decreases s.len(),
{
    if s.len() == 0 {
        Seq::<u8>::empty()
    } else if s[0] == 43 {
        seq![32u8] + decode_component(s.drop_first())
    } else if s[0] == 37 && s.len() >= 3 && is_hex_digit(s[1]) && is_hex_digit(s[2]) {
        seq![(hex_value(s[1]) * 16 + hex_value(s[2])) as u8] + decode_component(
            s.subrange(3, s.len() as int),
        )
    } else {
        seq![s[0]] + decode_component(s.drop_first())
    }
}

/// The decoded pair a component carries.
pub open spec fn parse_pair(p: Seq<u8>) -> (Seq<u8>, Seq<u8>) {
    let kv = split_eq(p);
    (decode_component(kv.0), decode_component(kv.1))
}

/// The decoded key that selects the username value.
pub open spec fn username_key() -> Seq<u8> {
    seq![117u8, 115, 101, 114, 110, 97, 109, 101]
}

/// The decoded key that selects the password value.
pub open spec fn password_key() -> Seq<u8> {
    seq![112u8, 97, 115, 115, 119, 111, 114, 100]
}

/// Walks the components in order, collecting the `username` and `password`
/// values. Empty components and unknown keys are skipped; a second
/// occurrence of either key makes the whole query malformed.
pub open spec fn fold_pairs(
    pairs: Seq<Seq<u8>>,
    username: Option<Seq<u8>>,
    password: Option<Seq<u8>>,
) -> Option<(Option<Seq<u8>>, Option<Seq<u8>>)>
    decreases pairs.len(),
{
    if pairs.len() == 0 {
        Some((username, password))
    } else if pairs[0].len() == 0 {
        fold_pairs(pairs.drop_first(), username, password)
    } else {
        let kv = parse_pair(pairs[0]);
        if kv.0 == username_key() {
            if username is Some {
                None
            } else {
                fold_pairs(pairs.drop_first(), Some(kv.1), password)
            }
        } else if kv.0 == password_key() {
            if password is Some {
                None
            } else {
                fold_pairs(pairs.drop_first(), username, Some(kv.1))
            }
        } else {
            fold_pairs(pairs.drop_first(), username, password)
        }
    }
}

/// The credentials a query presents, as decoded byte sequences: `Some`
/// exactly when the query names both keys once.
pub open spec fn parse_credentials(s: Seq<u8>) -> Option<(Seq<u8>, Seq<u8>)> {
    match fold_pairs(split_amp(s), None, None) {
        Some(up) => match up {
            (Some(u), Some(p)) => Some((u, p)),
            _ => None,
        },
        None => None,
    }
}

/// Decides `is_hex_digit`.
fn hex_digit(b: u8) -> (r: bool)
    ensures
        r == is_hex_digit(b),
{
    (48 <= b && b <= 57) || (97 <= b && b <= 102) || (65 <= b && b <= 70)
}

/// Computes `hex_value`.
fn hex_digit_value(b: u8) -> (r: u8)
    requires
        is_hex_digit(b),
    ensures
        r == hex_value(b),
        r < 16,
{
    if 48 <= b && b <= 57 {
        b - 48
    } else if 97 <= b && b <= 102 {
        b - 97 + 10
    } else {
        b - 65 + 10
    }
}

/// Splits a query into its `&`-separated components.
fn split_components(s: &Vec<u8>) -> (r: Vec<Vec<u8>>)
    ensures
        r.deep_view() == split_amp(s@),
        r@.len() >= 1,
{
    let mut comps: Vec<Vec<u8>> = Vec::new();
    comps.push(Vec::new());
    proof {
        assert(s@.subrange(0, 0) =~= Seq::<u8>::empty());
        assert(comps.deep_view() =~~= split_amp(s@.subrange(0, 0)));
    }
    let n = s.len();
    for i in 0..n
        invariant
            n == s@.len(),
            comps@.len() >= 1,
            comps.deep_view() == split_amp(s@.subrange(0, i as int)),
    {
        let ghost prefix = s@.subrange(0, i as int);
        let b = s[i];
        if b == 38 {
            comps.push(Vec::new());
        } else {
            let mut last = comps.pop().unwrap();
            last.push(b);
            comps.push(last);
        }
        proof {
            let stepped = s@.subrange(0, i + 1);
            assert(stepped.drop_last() =~= prefix);
            assert(stepped.last() == s@[i as int]);
            if b == 38 {
                assert(comps.deep_view() =~~= split_amp(prefix).push(Seq::<u8>::empty()));
            } else {
                lemma_split_amp_nonempty(prefix);
                assert(comps.deep_view() =~~= split_amp(prefix).update(
                    split_amp(prefix).len() - 1,
                    split_amp(prefix).last().push(s@[i as int]),
                ));
            }
        }
    }
    proof {
        assert(s@.subrange(0, s@.len() as int) =~= s@);
    }
    comps
}

/// One decoding step: moving `b` from the head of the remainder into the
/// accumulator keeps the concatenation equation of `decode_bytes`.
proof fn step_concat(out0: Seq<u8>, b: u8)
    ensures
        forall|rest: Seq<u8>| out0 + (seq![b] + rest) =~= #[trigger] (out0.push(b) + rest),
{
}

/// Decodes one raw component, computing `decode_component`.
fn decode_bytes(comp: &Vec<u8>) -> (r: Vec<u8>)
    ensures
        r@ == decode_component(comp@),
{
    let mut out: Vec<u8> = Vec::new();
    let mut i: usize = 0;
    let n = comp.len();
    proof {
        assert(comp@.subrange(0, n as int) =~= comp@);
        assert(out@ + decode_component(comp@) =~= decode_component(comp@));
    }
    while i < n
        invariant
            i <= n,
            n == comp@.len(),
            decode_component(comp@) == out@ + decode_component(
                comp@.subrange(i as int, n as int),
            ),
        decreases n - i,
    {
        let ghost rem = comp@.subrange(i as int, n as int);
        let ghost out0 = out@;
        proof {
            assert(rem[0] == comp@[i as int]);
        }
        let b = comp[i];
        if b == 43 {
            out.push(32);
            i = i + 1;
            proof {
                assert(rem.drop_first() =~= comp@.subrange(i as int, n as int));
                step_concat(out0, 32);
            }
        } else if b == 37 && n - i >= 3 && hex_digit(comp[i + 1]) && hex_digit(comp[i + 2]) {
            let v = hex_digit_value(comp[i + 1]) * 16 + hex_digit_value(comp[i + 2]);
            proof {
                assert(rem[1] == comp@[i + 1] && rem[2] == comp@[i + 2]);
            }
            out.push(v);
            i = i + 3;
            proof {
                assert(rem.subrange(3, rem.len() as int) =~= comp@.subrange(i as int, n as int));
                step_concat(out0, v);
            }
        } else {
            proof {
                if n - i >= 3 {
                    assert(rem[1] == comp@[i + 1] && rem[2] == comp@[i + 2]);
                }
            }
            out.push(b);
            i = i + 1;
            proof {
                assert(rem.drop_first() =~= comp@.subrange(i as int, n as int));
                step_concat(out0, b);
            }
        }
    }
    proof {
        assert(comp@.subrange(n as int, n as int) =~= Seq::<u8>::empty());
        assert(out@ + Seq::<u8>::empty() =~= out@);
    }
    out
}

/// Decides whether two byte sequences are equal.
pub fn bytes_eq(a: &Vec<u8>, b: &Vec<u8>) -> (r: bool)
    ensures
        r == (a@ == b@),
{
    let n = a.len();
    if b.len() != n {
        return false;
    }
    for i in 0..n
        invariant
            n == a@.len(),
            n == b@.len(),
            forall|j: int| 0 <= j < i ==> a@[j] == b@[j],
    {
        if a[i] != b[i] {
            return false;
        }
    }
    proof {
        assert(a@ =~= b@);
    }
    true
}

/// The byte spelling of the username key.
fn username_key_bytes() -> (r: Vec<u8>)
    ensures
        r@ == username_key(),
{
    let r: Vec<u8> = vec![117, 115, 101, 114, 110, 97, 109, 101];
    proof {
        assert(r@ =~= username_key());
    }
    r
}

/// The byte spelling of the password key.
fn password_key_bytes() -> (r: Vec<u8>)
    ensures
        r@ == password_key(),
{
    let r: Vec<u8> = vec![112, 97, 115, 115, 119, 111, 114, 100];
    proof {
        assert(r@ =~= password_key());
    }
    r
}

/// The view of a collected credential value.
pub open spec fn opt_bytes(o: Option<Vec<u8>>) -> Option<Seq<u8>> {
    match o {
        Some(v) => Some(v@),
        None => None,
    }
}

/// Parses a query string into the username and password bytes it presents,
/// deciding `parse_credentials` over the query's UTF-8 bytes.
pub fn parse_query(query: &str) -> (r: Option<(Vec<u8>, Vec<u8>)>)
    ensures
        match r {
            Some(up) => parse_credentials(query.spec_bytes()) == Some((up.0@, up.1@)),
            None => parse_credentials(query.spec_bytes()) is None,
        },
{
    let bytes = query.as_bytes_vec();
    let comps = split_components(&bytes);
    let ghost pairs = split_amp(query.spec_bytes());
    let username_wanted = username_key_bytes();
    let password_wanted = password_key_bytes();
    let mut username: Option<Vec<u8>> = None;
    let mut password: Option<Vec<u8>> = None;
    let n = comps.len();
    assert(pairs.subrange(0, n as int) =~= pairs);
    for k in 0..n
        invariant
            n == comps@.len(),
            pairs == split_amp(query.spec_bytes()),
            comps.deep_view() == pairs,
            username_wanted@ == username_key(),
            password_wanted@ == password_key(),
            fold_pairs(pairs, None, None) == fold_pairs(
                pairs.subrange(k as int, n as int),
                opt_bytes(username),
                opt_bytes(password),
            ),
    {
        let ghost rem = pairs.subrange(k as int, n as int);
        let comp = &comps[k];
        proof {
            assert(rem[0] == pairs[k as int]);
            assert(pairs[k as int] == comps.deep_view()[k as int]);
            assert(comps.deep_view()[k as int] =~= comp@);
            assert(rem.drop_first() =~= pairs.subrange(k + 1, n as int));
        }
        if comp.len() > 0 {
            let eq_pos = find_eq(comp);
            match eq_pos {
                None => {
                    proof {
                        lemma_split_eq_none(comp@);
                        assert(comp@.subrange(0, comp@.len() as int) =~= comp@);
                    }
                },
                Some(pos) => {
                    proof {
                        lemma_split_eq_at(comp@, pos as int);
                    }
                },
            }
            let raw_key = match eq_pos {
                Some(pos) => sub_vec(comp, 0, pos),
                None => sub_vec(comp, 0, comp.len()),
            };
            let raw_val = match eq_pos {
                Some(pos) => sub_vec(comp, pos + 1, comp.len()),
                None => Vec::new(),
            };
            let key = decode_bytes(&raw_key);
            let val = decode_bytes(&raw_val);
            proof {
                assert(rem.len() > 0);
                assert(parse_pair(rem[0]) == (key@, val@));
            }
            if bytes_eq(&key, &username_wanted) {
                if username.is_some() {
                    proof {
                        assert(fold_pairs(rem, opt_bytes(username), opt_bytes(password))
                            is None);
                    }
                    return None;
                }
                username = Some(val);
            } else if bytes_eq(&key, &password_wanted) {
                if password.is_some() {
                    proof {
                        assert(fold_pairs(rem, opt_bytes(username), opt_bytes(password))
                            is None);
                    }
                    return None;
                }
                password = Some(val);
            }
        }
    }
    proof {
        assert(pairs.subrange(n as int, n as int) =~= Seq::<Seq<u8>>::empty());
        assert(fold_pairs(pairs, None, None) == Some(
            (opt_bytes(username), opt_bytes(password)),
        ));
    }
    match (username, password) {
        (Some(u), Some(p)) => Some((u, p)),
        _ => None,
    }
}

/// The first `=` in a component, if any.
fn find_eq(v: &Vec<u8>) -> (r: Option<usize>)
    ensures
        match r {
            Some(i) => i < v@.len() && v@[i as int] == 61 && forall|j: int|
                0 <= j < i ==> v@[j] != 61,
            None => forall|j: int| 0 <= j < v@.len() ==> v@[j] != 61,
        },
{
    let n = v.len();
    for i in 0..n
        invariant
            n == v@.len(),
            forall|j: int| 0 <= j < i ==> v@[j] != 61,
    {
        if v[i] == 61 {
            return Some(i);
        }
    }
    None
}

/// Copies the bytes of `v` between `from` and `to`.
fn sub_vec(v: &Vec<u8>, from: usize, to: usize) -> (r: Vec<u8>)
    requires
        from <= to <= v@.len(),
    ensures
        r@ == v@.subrange(from as int, to as int),
{
    let mut out: Vec<u8> = Vec::new();
    for i in from..to
        invariant
            from <= to <= v@.len(),
            out@.len() == i - from,
            forall|j: int| 0 <= j < out@.len() ==> out@[j] == v@[from + j],
    {
        out.push(v[i]);
    }
    proof {
        assert(out@ =~= v@.subrange(from as int, to as int));
    }
    out
}

} // verus!
