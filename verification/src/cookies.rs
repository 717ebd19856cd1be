//! The cookie header: how it is read into name/value pairs, how a cookie is
//! set in it, and how a cookie is looked up.
//!
//! A header is split at `;` into pieces and each piece at `=`; a piece gives
//! the pair of its first two parts, and reading stops at the first piece
//! without `=`. Nothing is trimmed.

use vstd::prelude::*;

verus! {

/// A cookie: its name and its value.
pub type CookiePair = (Seq<char>, Seq<char>);

/// The pieces of `s` between the occurrences of `sep`, as `str::split` gives
/// them: one more piece than there are separators.
pub open spec fn split_at(s: Seq<char>, sep: char) -> Seq<Seq<char>>
    decreases s.len(),
{
    if s.len() == 0 {
        seq![Seq::<char>::empty()]
    } else {
        let rest = split_at(s.drop_first(), sep);
        if s[0] == sep {
            seq![Seq::<char>::empty()] + rest
        } else {
            rest.update(0, seq![s[0]] + rest[0])
        }
    }
}

/// The cookies read from the pieces of a header, up to the first piece
/// without `=`.
pub open spec fn cookie_pairs(pieces: Seq<Seq<char>>) -> Seq<CookiePair>
    decreases pieces.len(),
{
    if pieces.len() == 0 {
        Seq::empty()
    } else {
        let parts = split_at(pieces[0], '=');
        if parts.len() < 2 {
            Seq::empty()
        } else {
            seq![(parts[0], parts[1])] + cookie_pairs(pieces.drop_first())
        }
    }
}

/// The cookies of a cookie header, in order.
pub open spec fn cookies_of(header: Seq<char>) -> Seq<CookiePair> {
    cookie_pairs(split_at(header, ';'))
}

/// The value of the first cookie named `name` among `pairs`, if any.
pub open spec fn lookup(pairs: Seq<CookiePair>, name: Seq<char>) -> Option<Seq<char>>
    decreases pairs.len(),
{
    if pairs.len() == 0 {
        None
    } else if pairs[0].0 == name {
        Some(pairs[0].1)
    } else {
        lookup(pairs.drop_first(), name)
    }
}

/// The cookies of `pairs` not named `name`, in order.
pub open spec fn without(pairs: Seq<CookiePair>, name: Seq<char>) -> Seq<CookiePair>
    decreases pairs.len(),
{
    if pairs.len() == 0 {
        Seq::empty()
    } else if pairs[0].0 == name {
        without(pairs.drop_first(), name)
    } else {
        seq![pairs[0]] + without(pairs.drop_first(), name)
    }
}

/// One cookie written out: `name=value`.
pub open spec fn pair_text(p: CookiePair) -> Seq<char> {
    p.0 + seq!['='] + p.1
}

/// Cookies written out, joined with `;`.
pub open spec fn serialized(pairs: Seq<CookiePair>) -> Seq<char>
    decreases pairs.len(),
{
    if pairs.len() == 0 {
        Seq::empty()
    } else if pairs.len() == 1 {
        pair_text(pairs[0])
    } else {
        pair_text(pairs[0]) + seq![';'] + serialized(pairs.drop_first())
    }
}

/// The value of the cookie `name` in the cookie header `cookies`, if any.
pub open spec fn cookie_value(cookies: Seq<char>, name: Seq<char>) -> Option<Seq<char>> {
    lookup(cookies_of(cookies), name)
}

/// The cookie header `cookies` with the cookie `name` set to `value`: the
/// other cookies read from the header, in order, then `name=value`, joined
/// with `;`.
pub open spec fn cookies_with(cookies: Seq<char>, name: Seq<char>, value: Seq<char>) -> Seq<char> {
    serialized(without(cookies_of(cookies), name).push((name, value)))
}

/// Whether a text can stand as a cookie's name or value as it is: it holds
/// neither `;` nor `=`, which separate the cookies and their parts.
pub open spec fn cookie_text(s: Seq<char>) -> bool {
    !s.contains(';') && !s.contains('=')
}

/// Whether every name and value among `pairs` can stand as it is.
pub open spec fn clean_pairs(pairs: Seq<CookiePair>) -> bool {
    forall|i: int| 0 <= i < pairs.len() ==> cookie_text(#[trigger] pairs[i].0) && cookie_text(pairs[i].1)
}

/// Whether every character of every piece is a character of `s` other than
/// `sep`.
pub open spec fn pieces_within(pieces: Seq<Seq<char>>, s: Seq<char>, sep: char) -> bool {
    forall|k: int, j: int|
        0 <= k < pieces.len() && 0 <= j < pieces[k].len() ==> #[trigger] pieces[k][j] != sep && s.contains(
            pieces[k][j],
        )
}

proof fn lemma_split_nonempty(s: Seq<char>, sep: char)
    ensures
        split_at(s, sep).len() >= 1,
    decreases s.len(),
{
    if s.len() > 0 {
        lemma_split_nonempty(s.drop_first(), sep);
    }
}

proof fn lemma_split_plain(s: Seq<char>, sep: char)
    requires
        !s.contains(sep),
    ensures
        split_at(s, sep) == seq![s],
    decreases s.len(),
{
    if s.len() > 0 {
        assert(!s.drop_first().contains(sep)) by {
            if s.drop_first().contains(sep) {
                let i = choose|i: int| 0 <= i < s.drop_first().len() && s.drop_first()[i] == sep;
                assert(s[i + 1] == sep);
            }
        }
        lemma_split_plain(s.drop_first(), sep);
        assert(s[0] != sep);
        assert(seq![s[0]] + s.drop_first() =~= s);
        assert(split_at(s, sep) =~= seq![s]);
    } else {
        assert(s =~= Seq::<char>::empty());
    }
}

proof fn lemma_split_join(a: Seq<char>, b: Seq<char>, sep: char)
    ensures
        split_at(a + seq![sep] + b, sep) == split_at(a, sep) + split_at(b, sep),
    decreases a.len(),
{
    let s = a + seq![sep] + b;
    if a.len() == 0 {
        assert(s.drop_first() =~= b);
        assert(s[0] == sep);
    } else {
        assert(s.drop_first() =~= a.drop_first() + seq![sep] + b);
        assert(s[0] == a[0]);
        lemma_split_join(a.drop_first(), b, sep);
        lemma_split_nonempty(a.drop_first(), sep);
        let ra = split_at(a.drop_first(), sep);
        let rb = split_at(b, sep);
        if a[0] == sep {
            assert(seq![Seq::<char>::empty()] + (ra + rb) =~= (seq![Seq::<char>::empty()] + ra) + rb);
        } else {
            assert((ra + rb)[0] == ra[0]);
            assert((ra + rb).update(0, seq![a[0]] + ra[0]) =~= ra.update(0, seq![a[0]] + ra[0]) + rb);
        }
    }
}

proof fn lemma_split_within(s: Seq<char>, sep: char)
    ensures
        pieces_within(split_at(s, sep), s, sep),
    decreases s.len(),
{
    if s.len() > 0 {
        let t = s.drop_first();
        lemma_split_within(t, sep);
        lemma_split_nonempty(t, sep);
        let rest = split_at(t, sep);
        let ps = split_at(s, sep);
        assert forall|k: int, j: int| 0 <= k < ps.len() && 0 <= j < ps[k].len() implies #[trigger] ps[k][j]
            != sep && s.contains(ps[k][j]) by {
            if s[0] == sep {
                assert(k >= 1);
                assert(ps[k] == rest[k - 1]);
                assert(rest[k - 1][j] != sep && t.contains(rest[k - 1][j]));
                let i = choose|i: int| 0 <= i < t.len() && t[i] == rest[k - 1][j];
                assert(s[i + 1] == ps[k][j]);
            } else if k == 0 {
                if j == 0 {
                    assert(ps[0][0] == s[0]);
                    assert(s[0] == ps[k][j]);
                } else {
                    assert(ps[0][j] == rest[0][j - 1]);
                    assert(rest[0][j - 1] != sep && t.contains(rest[0][j - 1]));
                    let i = choose|i: int| 0 <= i < t.len() && t[i] == rest[0][j - 1];
                    assert(s[i + 1] == ps[k][j]);
                }
            } else {
                assert(ps[k] == rest[k]);
                assert(rest[k][j] != sep && t.contains(rest[k][j]));
                let i = choose|i: int| 0 <= i < t.len() && t[i] == rest[k][j];
                assert(s[i + 1] == ps[k][j]);
            }
        }
    }
}

proof fn lemma_parsed_clean(pieces: Seq<Seq<char>>)
    requires
        forall|k: int| 0 <= k < pieces.len() ==> !(#[trigger] pieces[k]).contains(';'),
    ensures
        clean_pairs(cookie_pairs(pieces)),
    decreases pieces.len(),
{
    if pieces.len() > 0 {
        let parts = split_at(pieces[0], '=');
        if parts.len() >= 2 {
            lemma_parsed_clean(pieces.drop_first());
            lemma_split_within(pieces[0], '=');
            let ps = cookie_pairs(pieces);
            let rest = cookie_pairs(pieces.drop_first());
            assert forall|k: int| 0 <= k < 2 implies cookie_text(#[trigger] parts[k]) by {
                if parts[k].contains(';') {
                    let j = choose|j: int| 0 <= j < parts[k].len() && parts[k][j] == ';';
                    assert(parts[k][j] != '=' && pieces[0].contains(parts[k][j]));
                }
                if parts[k].contains('=') {
                    let j = choose|j: int| 0 <= j < parts[k].len() && parts[k][j] == '=';
                    assert(parts[k][j] != '=');
                }
            }
            assert forall|i: int| 0 <= i < ps.len() implies cookie_text(#[trigger] ps[i].0) && cookie_text(
                ps[i].1,
            ) by {
                if i == 0 {
                    assert(ps[0] == (parts[0], parts[1]));
                    assert(cookie_text(parts[0]));
                    assert(cookie_text(parts[1]));
                } else {
                    assert(ps[i] == rest[i - 1]);
                }
            }
        }
    }
}

proof fn lemma_pair_text_clean(p: CookiePair)
    requires
        cookie_text(p.0),
        cookie_text(p.1),
    ensures
        !pair_text(p).contains(';'),
        split_at(pair_text(p), '=') == seq![p.0, p.1],
{
    let t = pair_text(p);
    if t.contains(';') {
        let i = choose|i: int| 0 <= i < t.len() && t[i] == ';';
        if i < p.0.len() {
            assert(p.0[i] == ';');
        } else if i > p.0.len() {
            assert(p.1[i - p.0.len() - 1] == ';');
        }
    }
    lemma_split_join(p.0, p.1, '=');
    lemma_split_plain(p.0, '=');
    lemma_split_plain(p.1, '=');
    assert(seq![p.0] + seq![p.1] =~= seq![p.0, p.1]);
}

proof fn lemma_serialized_split(q: Seq<CookiePair>)
    requires
        q.len() > 0,
        clean_pairs(q),
    ensures
        split_at(serialized(q), ';') == q.map_values(|p: CookiePair| pair_text(p)),
    decreases q.len(),
{
    assert(cookie_text(q[0].0) && cookie_text(q[0].1));
    lemma_pair_text_clean(q[0]);
    if q.len() == 1 {
        lemma_split_plain(pair_text(q[0]), ';');
        assert(q.map_values(|p: CookiePair| pair_text(p)) =~= seq![pair_text(q[0])]);
    } else {
        let r = q.drop_first();
        assert forall|i: int| 0 <= i < r.len() implies cookie_text(#[trigger] r[i].0) && cookie_text(r[i].1) by {
            assert(r[i] == q[i + 1]);
        }
        lemma_serialized_split(r);
        lemma_split_join(pair_text(q[0]), serialized(r), ';');
        lemma_split_plain(pair_text(q[0]), ';');
        assert(q.map_values(|p: CookiePair| pair_text(p)) =~= seq![pair_text(q[0])] + r.map_values(
            |p: CookiePair| pair_text(p),
        ));
    }
}

proof fn lemma_pairs_round_trip(q: Seq<CookiePair>)
    requires
        clean_pairs(q),
    ensures
        cookie_pairs(q.map_values(|p: CookiePair| pair_text(p))) == q,
    decreases q.len(),
{
    let pieces = q.map_values(|p: CookiePair| pair_text(p));
    if q.len() > 0 {
        let r = q.drop_first();
        assert forall|i: int| 0 <= i < r.len() implies cookie_text(#[trigger] r[i].0) && cookie_text(r[i].1) by {
            assert(r[i] == q[i + 1]);
        }
        lemma_pairs_round_trip(r);
        assert(cookie_text(q[0].0) && cookie_text(q[0].1));
        lemma_pair_text_clean(q[0]);
        assert(pieces[0] == pair_text(q[0]));
        assert(pieces.drop_first() =~= r.map_values(|p: CookiePair| pair_text(p)));
        assert(seq![(q[0].0, q[0].1)] + r =~= q);
    }
}

proof fn lemma_without_clean(pairs: Seq<CookiePair>, name: Seq<char>)
    requires
        clean_pairs(pairs),
    ensures
        clean_pairs(without(pairs, name)),
        forall|i: int| 0 <= i < without(pairs, name).len() ==> (#[trigger] without(pairs, name)[i]).0 != name,
    decreases pairs.len(),
{
    if pairs.len() > 0 {
        let r = pairs.drop_first();
        assert forall|i: int| 0 <= i < r.len() implies cookie_text(#[trigger] r[i].0) && cookie_text(r[i].1) by {
            assert(r[i] == pairs[i + 1]);
        }
        lemma_without_clean(r, name);
        let w = without(pairs, name);
        let wr = without(r, name);
        if pairs[0].0 != name {
            assert(cookie_text(pairs[0].0) && cookie_text(pairs[0].1));
            assert forall|i: int| 0 <= i < w.len() implies cookie_text(#[trigger] w[i].0) && cookie_text(w[i].1)
                && w[i].0 != name by {
                if i > 0 {
                    assert(w[i] == wr[i - 1]);
                }
            }
        }
    }
}

proof fn lemma_lookup_last(pairs: Seq<CookiePair>, name: Seq<char>, value: Seq<char>)
    requires
        forall|i: int| 0 <= i < pairs.len() ==> (#[trigger] pairs[i]).0 != name,
    ensures
        lookup(pairs.push((name, value)), name) == Some(value),
    decreases pairs.len(),
{
    let q = pairs.push((name, value));
    if pairs.len() > 0 {
        let r = pairs.drop_first();
        assert forall|i: int| 0 <= i < r.len() implies (#[trigger] r[i]).0 != name by {
            assert(r[i] == pairs[i + 1]);
        }
        lemma_lookup_last(r, name, value);
        assert(q.drop_first() =~= r.push((name, value)));
        assert(q[0] == pairs[0]);
    }
}

/// Setting a cookie and then looking it up gives the value set: for every
/// cookie header, when neither the name nor the value holds a separator
/// (`;` or `=`), the header with the cookie `name` set to `value` reads back
/// `value` for `name`.
pub proof fn lemma_cookie_read_back(cookies: Seq<char>, name: Seq<char>, value: Seq<char>)
    requires
        cookie_text(name),
        cookie_text(value),
    ensures
        cookie_value(cookies_with(cookies, name, value), name) == Some(value),
{
    let pieces = split_at(cookies, ';');
    lemma_split_within(cookies, ';');
    assert forall|k: int| 0 <= k < pieces.len() implies !(#[trigger] pieces[k]).contains(';') by {
        if pieces[k].contains(';') {
            let j = choose|j: int| 0 <= j < pieces[k].len() && pieces[k][j] == ';';
            assert(pieces[k][j] != ';');
        }
    }
    lemma_parsed_clean(pieces);
    let w = without(cookies_of(cookies), name);
    lemma_without_clean(cookies_of(cookies), name);
    let q = w.push((name, value));
    assert forall|i: int| 0 <= i < q.len() implies cookie_text(#[trigger] q[i].0) && cookie_text(q[i].1) by {
        if i < w.len() {
            assert(q[i] == w[i]);
        }
    }
    lemma_serialized_split(q);
    lemma_pairs_round_trip(q);
    lemma_lookup_last(w, name, value);
}

} // verus!
