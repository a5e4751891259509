//! Query strings: splitting a request target, and parsing `k=v&k=v` into a
//! map whose keys and values are percent-decoded.

use vstd::prelude::*;
use crate::text::{chars_of, owned, string_from_chars};
use crate::urlcodec::{decode_or_keep, decode_or_keep_str, law_decode_undoes_encode, law_encoded_has_no_separator, percent_encode};
use vstd::utf8::encode_utf8;

verus! {

/// The pieces of `s` between occurrences of `d`, as `str::split` yields them:
/// `""` gives one empty piece, and each `d` starts a new piece.
pub open spec fn split_on(s: Seq<char>, d: char) -> Seq<Seq<char>>
    decreases s.len(),
{
    if s.len() == 0 {
        seq![Seq::empty()]
    } else {
        let init = split_on(s.drop_last(), d);
        if s.last() == d {
            init.push(Seq::empty())
        } else {
            init.update(init.len() - 1, init.last().push(s.last()))
        }
    }
}

/// The pieces joined back with `d` between them.
pub open spec fn join_with(ps: Seq<Seq<char>>, d: char) -> Seq<char>
    decreases ps.len(),
{
    if ps.len() == 0 {
        Seq::empty()
    } else if ps.len() == 1 {
        ps[0]
    } else {
        join_with(ps.drop_last(), d).push(d) + ps.last()
    }
}

/// What precedes the first `c` in `p` (all of `p` where there is none).
pub open spec fn before_first(p: Seq<char>, c: char) -> Seq<char>
    decreases p.len(),
{
    if p.len() == 0 {
        p
    } else if p[0] == c {
        Seq::empty()
    } else {
        seq![p[0]] + before_first(p.drop_first(), c)
    }
}

/// What follows the first `c` in `p` (empty where there is none).
pub open spec fn after_first(p: Seq<char>, c: char) -> Seq<char>
    decreases p.len(),
{
    if p.len() == 0 {
        Seq::empty()
    } else if p[0] == c {
        p.drop_first()
    } else {
        after_first(p.drop_first(), c)
    }
}

/// `m` after reading one piece `k=v` (or `k`, read as `k=`): the key and the
/// value are percent-decoded, each kept as it is where it does not decode,
/// and a key seen before takes the new value. Empty pieces are skipped.
pub open spec fn with_piece(m: Map<Seq<char>, Seq<char>>, p: Seq<char>) -> Map<Seq<char>, Seq<char>> {
    if p.len() == 0 {
        m
    } else {
        m.insert(decode_or_keep(before_first(p, '=')), decode_or_keep(after_first(p, '=')))
    }
}

/// The map that reading the pieces in order builds.
pub open spec fn pieces_map(ps: Seq<Seq<char>>) -> Map<Seq<char>, Seq<char>>
    decreases ps.len(),
{
    if ps.len() == 0 {
        Map::empty()
    } else {
        with_piece(pieces_map(ps.drop_last()), ps.last())
    }
}

/// The map a query string denotes.
pub open spec fn query_map(q: Seq<char>) -> Map<Seq<char>, Seq<char>> {
    pieces_map(split_on(q, '&'))
}

/// The map that a list of entries denotes, later entries overriding earlier.
pub open spec fn entries_map(es: Seq<(String, String)>) -> Map<Seq<char>, Seq<char>>
    decreases es.len(),
{
    if es.len() == 0 {
        Map::empty()
    } else {
        entries_map(es.drop_last()).insert(es.last().0@, es.last().1@)
    }
}

/// No key occurs twice.
pub open spec fn keys_distinct(es: Seq<(String, String)>) -> bool {
    forall|i: int, j: int| 0 <= i < j < es.len() ==> (#[trigger] es[i]).0@ != (#[trigger] es[j]).0@
}

/// A decoded query: each key once, with its value.
pub struct QueryMap {
    entries: Vec<(String, String)>,
}

impl View for QueryMap {
    type V = Map<Seq<char>, Seq<char>>;

    closed spec fn view(&self) -> Map<Seq<char>, Seq<char>> {
        entries_map(self.entries@)
    }
}

proof fn lemma_entries_lookup(es: Seq<(String, String)>, i: int)
    requires
        keys_distinct(es),
        0 <= i < es.len(),
    ensures
        entries_map(es).contains_key(es[i].0@),
        entries_map(es)[es[i].0@] == es[i].1@,
    decreases es.len(),
{
    if i < es.len() - 1 {
        lemma_entries_lookup(es.drop_last(), i);
        assert(es[i] == es.drop_last()[i]);
    }
}

proof fn lemma_entries_absent(es: Seq<(String, String)>, k: Seq<char>)
    requires
        forall|i: int| 0 <= i < es.len() ==> (#[trigger] es[i]).0@ != k,
    ensures
        !entries_map(es).contains_key(k),
    decreases es.len(),
{
    if es.len() > 0 {
        assert forall|i: int| 0 <= i < es.drop_last().len() implies (#[trigger] es.drop_last()[i]).0@ != k by {
            assert(es.drop_last()[i] == es[i]);
        }
        lemma_entries_absent(es.drop_last(), k);
        assert(es.last() == es[es.len() - 1]);
    }
}

proof fn lemma_entries_update(es: Seq<(String, String)>, j: int, kv: (String, String))
    requires
        keys_distinct(es),
        0 <= j < es.len(),
        es[j].0@ == kv.0@,
    ensures
        entries_map(es.update(j, kv)) == entries_map(es).insert(kv.0@, kv.1@),
    decreases es.len(),
{
    let es2 = es.update(j, kv);
    if j == es.len() - 1 {
        assert(es2.drop_last() =~= es.drop_last());
        assert(entries_map(es).insert(kv.0@, kv.1@) =~= entries_map(es.drop_last()).insert(kv.0@, kv.1@));
    } else {
        assert(keys_distinct(es.drop_last())) by {
            assert forall|a: int, b: int| 0 <= a < b < es.drop_last().len() implies (#[trigger] es.drop_last()[a]).0@
                != (#[trigger] es.drop_last()[b]).0@ by {
                assert(es.drop_last()[a] == es[a]);
                assert(es.drop_last()[b] == es[b]);
            }
        }
        lemma_entries_update(es.drop_last(), j, kv);
        assert(es2.drop_last() =~= es.drop_last().update(j, kv));
        assert(es2.last() == es.last());
        assert(es.last() == es[es.len() - 1]);
        assert(es.last().0@ != kv.0@);
        assert(entries_map(es2) =~= entries_map(es).insert(kv.0@, kv.1@));
    }
}

impl QueryMap {
    #[verifier::type_invariant]
    closed spec fn inv(self) -> bool {
        keys_distinct(self.entries@)
    }

    /// The empty map.
    pub fn new() -> (m: QueryMap)
        ensures
            m@ == Map::<Seq<char>, Seq<char>>::empty(),
    {
        QueryMap { entries: Vec::new() }
    }

    /// Where `key` stands in the entries.
    fn position(&self, key: &String) -> (r: Option<usize>)
        ensures
            match r {
                Some(i) => i < self.entries@.len() && self.entries@[i as int].0@ == key@,
                None => forall|j: int| 0 <= j < self.entries@.len() ==> (#[trigger] self.entries@[j]).0@ != key@,
            },
    {
        let mut i: usize = 0;
        while i < self.entries.len()
            invariant
                i <= self.entries@.len(),
                forall|j: int| 0 <= j < i ==> (#[trigger] self.entries@[j]).0@ != key@,
            decreases self.entries@.len() - i,
        {
            if self.entries[i].0 == *key {
                return Some(i);
            }
            i = i + 1;
        }
        None
    }

    /// Sets `key` to `value`, replacing an earlier value of `key`.
    pub fn insert(&mut self, key: String, value: String)
        ensures
            final(self)@ == old(self)@.insert(key@, value@),
    {
        proof {
            use_type_invariant(&*self);
        }
        let pos = self.position(&key);
        let ghost es = self.entries@;
        let ghost k = key@;
        let ghost v = value@;
        let kv = (key, value);
        let mut entries = Vec::new();
        std::mem::swap(&mut entries, &mut self.entries);
        match pos {
            Some(i) => {
                proof {
                    lemma_entries_update(es, i as int, kv);
                    assert forall|a: int, b: int| 0 <= a < b < es.len() implies (#[trigger] es.update(i as int, kv)[a]).0@
                        != (#[trigger] es.update(i as int, kv)[b]).0@ by {
                        if a == i {
                            assert(es[i as int].0@ != es[b].0@);
                        } else if b == i {
                            assert(es[a].0@ != es[i as int].0@);
                        }
                    }
                }
                entries.set(i, kv);
            },
            None => {
                entries.push(kv);
                proof {
                    assert(entries@.drop_last() =~= es);
                    assert forall|a: int, b: int| 0 <= a < b < entries@.len() implies (#[trigger] entries@[a]).0@
                        != (#[trigger] entries@[b]).0@ by {
                        assert(entries@[a] == es[a]);
                        if b < es.len() {
                            assert(entries@[b] == es[b]);
                        }
                    }
                }
            },
        }
        self.entries = entries;
    }

    /// The value of `key`, if the map holds it.
    pub fn get(&self, key: &str) -> (r: Option<&String>)
        ensures
            match r {
                Some(v) => self@.contains_key(key@) && self@[key@] == v@,
                None => !self@.contains_key(key@),
            },
    {
        proof {
            use_type_invariant(self);
        }
        let k = owned(key);
        let mut i: usize = 0;
        while i < self.entries.len()
            invariant
                k@ == key@,
                i <= self.entries@.len(),
                keys_distinct(self.entries@),
                forall|j: int| 0 <= j < i ==> (#[trigger] self.entries@[j]).0@ != key@,
            decreases self.entries@.len() - i,
        {
            if self.entries[i].0 == k {
                proof {
                    lemma_entries_lookup(self.entries@, i as int);
                }
                return Some(&self.entries[i].1);
            }
            i = i + 1;
        }
        proof {
            lemma_entries_absent(self.entries@, key@);
        }
        None
    }
}

/// The first index in `v[from..to]` holding `c`, or `to` where none does.
fn find_char(v: &Vec<char>, from: usize, to: usize, c: char) -> (r: usize)
    requires
        from <= to <= v@.len(),
    ensures
        from <= r <= to,
        r < to ==> v@[r as int] == c,
        forall|k: int| from <= k < r ==> v@[k] != c,
{
    let mut i = from;
    while i < to
        invariant
            from <= i <= to <= v@.len(),
            forall|k: int| from <= k < i ==> v@[k] != c,
        decreases to - i,
    {
        if v[i] == c {
            return i;
        }
        i = i + 1;
    }
    to
}

/// Reading `p` up to its first `c` at `i`, or to its end where `i` is its length.
proof fn lemma_first_at(p: Seq<char>, c: char, i: int)
    requires
        0 <= i <= p.len(),
        forall|k: int| 0 <= k < i ==> p[k] != c,
        i == p.len() || p[i] == c,
    ensures
        before_first(p, c) == p.take(i),
        after_first(p, c) == (if i == p.len() { Seq::<char>::empty() } else { p.skip(i + 1) }),
    decreases p.len(),
{
    if p.len() > 0 && i > 0 {
        assert forall|k: int| 0 <= k < i - 1 implies p.drop_first()[k] != c by {
            assert(p.drop_first()[k] == p[k + 1]);
        }
        lemma_first_at(p.drop_first(), c, i - 1);
        assert(p.take(i) =~= seq![p[0]] + p.drop_first().take(i - 1));
        if i < p.len() {
            assert(p.skip(i + 1) =~= p.drop_first().skip(i));
        }
    } else if p.len() > 0 {
        assert(p.take(0) =~= Seq::<char>::empty());
        assert(p.skip(1) =~= p.drop_first());
    } else {
        assert(p.take(0) =~= p);
    }
}

/// Reading `p` up to its first `c` at `i`, or to its end where `i` is its
/// length: what precedes and what follows that `c`.
pub proof fn lemma_first_at_pub(p: Seq<char>, c: char, i: int)
    requires
        0 <= i <= p.len(),
        forall|k: int| 0 <= k < i ==> p[k] != c,
        i == p.len() || p[i] == c,
    ensures
        before_first(p, c) == p.take(i),
        after_first(p, c) == (if i == p.len() { Seq::<char>::empty() } else { p.skip(i + 1) }),
{
    lemma_first_at(p, c, i);
}

/// Where the first `c` in `p` stands (its length where there is none).
proof fn lemma_first_index(p: Seq<char>, c: char) -> (i: int)
    ensures
        0 <= i <= p.len(),
        forall|k: int| 0 <= k < i ==> p[k] != c,
        i == p.len() || p[i] == c,
    decreases p.len(),
{
    if p.len() == 0 {
        0
    } else if p[0] == c {
        0
    } else {
        let j = lemma_first_index(p.drop_first(), c);
        assert forall|k: int| 0 <= k < j + 1 implies p[k] != c by {
            if k > 0 {
                assert(p[k] == p.drop_first()[k - 1]);
            }
        }
        j + 1
    }
}

/// Splitting yields at least one piece.
pub proof fn lemma_split_nonempty(s: Seq<char>, d: char)
    ensures
        split_on(s, d).len() >= 1,
    decreases s.len(),
{
    if s.len() > 0 {
        lemma_split_nonempty(s.drop_last(), d);
    }
}

impl QueryMap {
    /// Reads the piece `v[from..to]` into the map.
    fn add_piece(&mut self, v: &Vec<char>, from: usize, to: usize)
        requires
            from <= to <= v@.len(),
        ensures
            final(self)@ == with_piece(old(self)@, v@.subrange(from as int, to as int)),
    {
        if from == to {
            return;
        }
        let ghost p = v@.subrange(from as int, to as int);
        let e = find_char(v, from, to, '=');
        proof {
            assert forall|k: int| 0 <= k < e - from implies p[k] != '=' by {
                assert(p[k] == v@[from + k]);
            }
            if e < to {
                assert(p[e - from] == v@[e as int]);
            }
            lemma_first_at(p, '=', e - from);
        }
        let key = string_from_chars(v, from, e);
        let value = if e < to {
            string_from_chars(v, e + 1, to)
        } else {
            String::new()
        };
        proof {
            assert(key@ =~= p.take(e - from));
            if e < to {
                assert(value@ =~= p.skip(e - from + 1));
            }
        }
        let dk = decode_or_keep_str(key.as_str());
        let dv = decode_or_keep_str(value.as_str());
        self.insert(dk, dv);
    }
}

/// Parses a query string (`k=v&k2=v2`): splits it at `&`, skips empty pieces,
/// splits each piece at its first `=` (a piece without one is a key with an
/// empty value), percent-decodes key and value (keeping either as it is where
/// it does not decode to UTF-8), and lets a later key override an earlier one.
pub fn parse_query(q: &str) -> (m: QueryMap)
    ensures
        m@ == query_map(q@),
{
    let v = chars_of(q);
    let mut m = QueryMap::new();
    let mut start: usize = 0;
    let mut i: usize = 0;
    proof {
        assert(q@.take(0) =~= Seq::<char>::empty());
        assert(split_on(q@.take(0), '&').drop_last() =~= Seq::<Seq<char>>::empty());
        assert(v@.subrange(0, 0) =~= Seq::<char>::empty());
    }
    while i < v.len()
        invariant
            v@ == q@,
            start <= i <= v@.len(),
            split_on(q@.take(i as int), '&').len() >= 1,
            split_on(q@.take(i as int), '&').last() == v@.subrange(start as int, i as int),
            m@ == pieces_map(split_on(q@.take(i as int), '&').drop_last()),
        decreases v@.len() - i,
    {
        let ghost ps = split_on(q@.take(i as int), '&');
        let ghost next = q@.take(i + 1);
        proof {
            assert(next.drop_last() =~= q@.take(i as int));
            assert(next.last() == v@[i as int]);
        }
        if v[i] == '&' {
            m.add_piece(&v, start, i);
            proof {
                assert(split_on(next, '&') == ps.push(Seq::empty()));
                assert(ps.push(Seq::<char>::empty()).drop_last() =~= ps);
                assert(pieces_map(ps) == with_piece(pieces_map(ps.drop_last()), ps.last()));
                assert(v@.subrange(i + 1, i + 1) =~= Seq::<char>::empty());
            }
            start = i + 1;
        } else {
            proof {
                let ps2 = ps.update(ps.len() - 1, ps.last().push(v@[i as int]));
                assert(split_on(next, '&') == ps2);
                assert(ps2.drop_last() =~= ps.drop_last());
                assert(ps2.last() =~= v@.subrange(start as int, i + 1));
            }
        }
        i = i + 1;
    }
    let ghost ps = split_on(q@.take(i as int), '&');
    m.add_piece(&v, start, v.len());
    proof {
        assert(q@.take(i as int) =~= q@);
        assert(pieces_map(ps) == with_piece(pieces_map(ps.drop_last()), ps.last()));
    }
    m
}

/// Splits a request target at its first `?` into path and query; without a
/// `?` the whole target is the path and the query is empty.
pub fn split_target(url: &str) -> (r: (String, String))
    ensures
        r.0@ == before_first(url@, '?'),
        r.1@ == after_first(url@, '?'),
{
    let v = chars_of(url);
    let e = find_char(&v, 0, v.len(), '?');
    proof {
        lemma_first_at(url@, '?', e as int);
        assert(v@.subrange(0, e as int) =~= url@.take(e as int));
    }
    let path = string_from_chars(&v, 0, e);
    let query = if e < v.len() {
        string_from_chars(&v, e + 1, v.len())
    } else {
        String::new()
    };
    proof {
        if e < v.len() {
            assert(query@ =~= url@.skip(e + 1));
        }
    }
    (path, query)
}

proof fn lemma_join_extend_last(ps: Seq<Seq<char>>, d: char, t: Seq<char>)
    requires
        ps.len() >= 1,
    ensures
        join_with(ps.update(ps.len() - 1, ps.last() + t), d) == join_with(ps, d) + t,
{
    let ps2 = ps.update(ps.len() - 1, ps.last() + t);
    if ps.len() == 1 {
        assert(ps2[0] == ps[0] + t);
    } else {
        assert(ps2.drop_last() =~= ps.drop_last());
        assert(join_with(ps2, d) == join_with(ps2.drop_last(), d).push(d) + ps2.last());
        assert(join_with(ps2, d) =~= join_with(ps, d) + t);
    }
}

/// Splitting a text at `d` and joining the pieces back with `d` gives the
/// text again, and no piece holds `d`.
pub proof fn law_split_rejoin(s: Seq<char>, d: char)
    ensures
        join_with(split_on(s, d), d) == s,
        forall|i: int| 0 <= i < split_on(s, d).len() ==> !(#[trigger] split_on(s, d)[i]).contains(d),
    decreases s.len(),
{
    if s.len() > 0 {
        let init = split_on(s.drop_last(), d);
        law_split_rejoin(s.drop_last(), d);
        lemma_split_nonempty(s.drop_last(), d);
        let c = s.last();
        if c == d {
            let ps = init.push(Seq::empty());
            assert(ps.drop_last() =~= init);
            assert(join_with(ps, d) == join_with(init, d).push(d) + Seq::<char>::empty());
            assert(s =~= s.drop_last().push(d));
            assert forall|i: int| 0 <= i < ps.len() implies !(#[trigger] ps[i]).contains(d) by {
                if i < init.len() {
                    assert(ps[i] == init[i]);
                }
            }
        } else {
            let ps = init.update(init.len() - 1, init.last().push(c));
            assert(init.last().push(c) =~= init.last() + seq![c]);
            lemma_join_extend_last(init, d, seq![c]);
            assert(s =~= s.drop_last() + seq![c]);
            assert forall|i: int| 0 <= i < ps.len() implies !(#[trigger] ps[i]).contains(d) by {
                if i < init.len() - 1 {
                    assert(ps[i] == init[i]);
                } else {
                    let x = init.last();
                    assert(!init[init.len() - 1].contains(d));
                    if x.push(c).contains(d) {
                        let k = choose|k: int| 0 <= k < x.push(c).len() && x.push(c)[k] == d;
                        if k < x.len() {
                            assert(x[k] == d);
                        }
                    }
                }
            }
        }
    }
}

/// Appending text without `d` only extends the last piece.
proof fn lemma_split_append_plain(s: Seq<char>, t: Seq<char>, d: char)
    requires
        !t.contains(d),
    ensures
        split_on(s + t, d) == split_on(s, d).update(split_on(s, d).len() - 1, split_on(s, d).last() + t),
    decreases t.len(),
{
    lemma_split_nonempty(s, d);
    let ps = split_on(s, d);
    if t.len() == 0 {
        assert(s + t =~= s);
        assert(ps.last() + t =~= ps.last());
        assert(ps.update(ps.len() - 1, ps.last() + t) =~= ps);
    } else {
        let t0 = t.drop_last();
        assert(!t0.contains(d)) by {
            if t0.contains(d) {
                let k = choose|k: int| 0 <= k < t0.len() && t0[k] == d;
                assert(t[k] == d);
            }
        }
        lemma_split_append_plain(s, t0, d);
        assert((s + t).drop_last() =~= s + t0);
        assert((s + t).last() == t.last());
        assert(t.last() != d) by {
            assert(t[t.len() - 1] == t.last());
        }
        let ps0 = ps.update(ps.len() - 1, ps.last() + t0);
        assert(ps0.last().push(t.last()) =~= ps.last() + t);
        assert(ps0.update(ps0.len() - 1, ps0.last().push(t.last())) =~= ps.update(ps.len() - 1, ps.last() + t));
    }
}

/// Appending `&` and a piece `p` to a query reads `p` after everything
/// before: its key takes its value, whatever value it had.
pub proof fn law_append_piece(a: Seq<char>, p: Seq<char>)
    requires
        !p.contains('&'),
    ensures
        query_map(a + seq!['&'] + p) == with_piece(query_map(a), p),
{
    lemma_split_nonempty(a, '&');
    let amp = a + seq!['&'];
    assert(amp.drop_last() =~= a);
    let ps = split_on(a, '&').push(Seq::empty());
    assert(split_on(amp, '&') == ps);
    lemma_split_append_plain(amp, p, '&');
    let ps2 = ps.update(ps.len() - 1, ps.last() + p);
    assert(ps.last() + p =~= p);
    assert(ps2.drop_last() =~= split_on(a, '&'));
    assert(pieces_map(ps2) == with_piece(pieces_map(ps2.drop_last()), ps2.last()));
}

/// A pair `k=v` whose key and value hold none of `%`, `&`, `=` maps `k` to
/// `v` as they are, when it comes last in a query.
pub proof fn law_last_pair_wins(a: Seq<char>, k: Seq<char>, v: Seq<char>)
    requires
        k.len() > 0,
        !k.contains('%') && !k.contains('&') && !k.contains('='),
        !v.contains('%') && !v.contains('&') && !v.contains('='),
    ensures
        query_map(a + seq!['&'] + k + seq!['='] + v).contains_key(k),
        query_map(a + seq!['&'] + k + seq!['='] + v)[k] == v,
{
    let p = k + seq!['='] + v;
    assert(!p.contains('&')) by {
        if p.contains('&') {
            let i = choose|i: int| 0 <= i < p.len() && p[i] == '&';
            if i < k.len() {
                assert(k[i] == '&');
            } else if i > k.len() {
                assert(v[i - k.len() - 1] == '&');
            }
        }
    }
    assert(a + seq!['&'] + k + seq!['='] + v =~= a + seq!['&'] + p);
    law_append_piece(a, p);
    assert forall|i: int| 0 <= i < k.len() implies p[i] != '=' by {
        assert(p[i] == k[i]);
    }
    assert(p[k.len() as int] == '=');
    lemma_first_at(p, '=', k.len() as int);
    assert(p.take(k.len() as int) =~= k);
    assert(p.skip(k.len() as int + 1) =~= v);
    crate::urlcodec::lemma_decode_plain(k);
    crate::urlcodec::lemma_decode_plain(v);
}

/// A target with `?` is its path, `?` and its query, and the path holds no
/// `?`; one without `?` is all path, with an empty query.
pub proof fn law_target_rejoin(url: Seq<char>)
    ensures
        url.contains('?') ==> before_first(url, '?') + seq!['?'] + after_first(url, '?') == url
            && !before_first(url, '?').contains('?'),
        !url.contains('?') ==> before_first(url, '?') == url && after_first(url, '?').len() == 0,
{
    let i = lemma_first_index(url, '?');
    lemma_first_at(url, '?', i);
    if url.contains('?') {
        if i == url.len() {
            let j = choose|j: int| 0 <= j < url.len() && url[j] == '?';
            assert(url[j] != '?');
        }
        assert(url.take(i) + seq!['?'] + url.skip(i + 1) =~= url);
        if url.take(i).contains('?') {
            let j = choose|j: int| 0 <= j < url.take(i).len() && url.take(i)[j] == '?';
            assert(url[j] == '?');
        }
    } else {
        if i < url.len() {
            assert(url.contains('?'));
        }
        assert(url.take(url.len() as int) =~= url);
    }
}

/// Joining pieces that hold no `d` and splitting again gives the pieces.
pub proof fn lemma_split_join(ps: Seq<Seq<char>>, d: char)
    requires
        ps.len() >= 1,
        forall|i: int| 0 <= i < ps.len() ==> !(#[trigger] ps[i]).contains(d),
    ensures
        split_on(join_with(ps, d), d) == ps,
    decreases ps.len(),
{
    if ps.len() == 1 {
        let e = Seq::<char>::empty();
        lemma_split_append_plain(e, ps[0], d);
        assert(e + ps[0] =~= ps[0]);
        assert(split_on(e, d).update(0, split_on(e, d).last() + ps[0]) =~= ps);
    } else {
        let init = ps.drop_last();
        assert forall|i: int| 0 <= i < init.len() implies !(#[trigger] init[i]).contains(d) by {
            assert(init[i] == ps[i]);
        }
        lemma_split_join(init, d);
        let j = join_with(init, d);
        let jd = j.push(d);
        assert(jd.drop_last() =~= j);
        assert(split_on(jd, d) == init.push(Seq::empty()));
        assert(!ps.last().contains(d)) by {
            assert(ps.last() == ps[ps.len() - 1]);
        }
        lemma_split_append_plain(jd, ps.last(), d);
        let e = init.push(Seq::<char>::empty());
        assert(e.update(e.len() - 1, e.last() + ps.last()) =~= ps);
    }
}

/// Splitting `a & b` gives the pieces of `a` and then those of `b`.
pub proof fn lemma_split_concat(a: Seq<char>, b: Seq<char>, d: char)
    ensures
        split_on(a + seq![d] + b, d) == split_on(a, d) + split_on(b, d),
    decreases b.len(),
{
    lemma_split_nonempty(a, d);
    let ad = a + seq![d];
    if b.len() == 0 {
        assert(ad + b =~= ad);
        assert(ad.drop_last() =~= a);
        assert(split_on(a, d) + split_on(b, d) =~= split_on(a, d).push(Seq::empty()));
    } else {
        lemma_split_concat(a, b.drop_last(), d);
        lemma_split_nonempty(b.drop_last(), d);
        let s = ad + b;
        assert(s.drop_last() =~= a + seq![d] + b.drop_last());
        assert(s.last() == b.last());
        let pa = split_on(a, d);
        let pb = split_on(b.drop_last(), d);
        if b.last() == d {
            assert((pa + pb).push(Seq::empty()) =~= pa + pb.push(Seq::empty()));
        } else {
            let x = (pa + pb).last().push(b.last());
            assert((pa + pb).last() == pb.last());
            assert((pa + pb).update((pa + pb).len() - 1, x) =~= pa + pb.update(pb.len() - 1, pb.last().push(b.last())));
        }
    }
}

/// Reading pieces after others continues from the map the others built.
proof fn lemma_pieces_concat(a: Seq<Seq<char>>, b: Seq<Seq<char>>)
    ensures
        pieces_map(a + b) == pieces_map(a).union_prefer_right(pieces_map(b)),
    decreases b.len(),
{
    if b.len() == 0 {
        assert(a + b =~= a);
        assert(pieces_map(a).union_prefer_right(Map::empty()) =~= pieces_map(a));
    } else {
        lemma_pieces_concat(a, b.drop_last());
        assert((a + b).drop_last() =~= a + b.drop_last());
        assert((a + b).last() == b.last());
        let m = pieces_map(a);
        let n = pieces_map(b.drop_last());
        let p = b.last();
        if p.len() > 0 {
            let k = decode_or_keep(before_first(p, '='));
            let v = decode_or_keep(after_first(p, '='));
            assert(m.union_prefer_right(n).insert(k, v) =~= m.union_prefer_right(n.insert(k, v)));
        }
    }
}

/// Two queries joined with `&` read as the first, overridden key by key by
/// the second.
pub proof fn law_join_queries(q1: Seq<char>, q2: Seq<char>)
    ensures
        query_map(q1 + seq!['&'] + q2) == query_map(q1).union_prefer_right(query_map(q2)),
{
    lemma_split_concat(q1, q2, '&');
    lemma_pieces_concat(split_on(q1, '&'), split_on(q2, '&'));
}

/// The percent-encoding of a text's UTF-8 bytes.
pub open spec fn url_encoded(s: Seq<char>) -> Seq<char> {
    percent_encode(encode_utf8(s))
}

/// The piece `key=value`, both percent-encoded.
pub open spec fn encoded_pair(p: (Seq<char>, Seq<char>)) -> Seq<char> {
    url_encoded(p.0) + seq!['='] + url_encoded(p.1)
}

/// Each pair as an encoded piece.
pub open spec fn encoded_pieces(es: Seq<(Seq<char>, Seq<char>)>) -> Seq<Seq<char>> {
    es.map_values(|p: (Seq<char>, Seq<char>)| encoded_pair(p))
}

/// The query that writes the pairs as encoded pieces joined with `&`.
pub open spec fn encoded_query(es: Seq<(Seq<char>, Seq<char>)>) -> Seq<char> {
    if es.len() == 0 {
        Seq::empty()
    } else {
        join_with(encoded_pieces(es), '&')
    }
}

/// The map that setting the pairs in order builds.
pub open spec fn pairs_map(es: Seq<(Seq<char>, Seq<char>)>) -> Map<Seq<char>, Seq<char>>
    decreases es.len(),
{
    if es.len() == 0 {
        Map::empty()
    } else {
        pairs_map(es.drop_last()).insert(es.last().0, es.last().1)
    }
}

proof fn lemma_encoded_pair_piece(m: Map<Seq<char>, Seq<char>>, p: (Seq<char>, Seq<char>))
    ensures
        with_piece(m, encoded_pair(p)) == m.insert(p.0, p.1),
        !encoded_pair(p).contains('&'),
{
    let k = url_encoded(p.0);
    let v = url_encoded(p.1);
    let e = encoded_pair(p);
    law_encoded_has_no_separator(encode_utf8(p.0));
    law_encoded_has_no_separator(encode_utf8(p.1));
    law_decode_undoes_encode(p.0);
    law_decode_undoes_encode(p.1);
    assert forall|i: int| 0 <= i < k.len() implies e[i] != '=' by {
        assert(e[i] == k[i]);
    }
    assert(e[k.len() as int] == '=');
    lemma_first_at(e, '=', k.len() as int);
    assert(e.take(k.len() as int) =~= k);
    assert(e.skip(k.len() as int + 1) =~= v);
    if e.contains('&') {
        let i = choose|i: int| 0 <= i < e.len() && e[i] == '&';
        if i < k.len() {
            assert(k[i] == '&');
        } else if i > k.len() {
            assert(v[i - k.len() - 1] == '&');
        }
    }
}

proof fn lemma_pieces_of_pairs(es: Seq<(Seq<char>, Seq<char>)>)
    ensures
        pieces_map(encoded_pieces(es)) == pairs_map(es),
        forall|i: int| 0 <= i < es.len() ==> !(#[trigger] encoded_pieces(es)[i]).contains('&'),
    decreases es.len(),
{
    let ps = encoded_pieces(es);
    if es.len() > 0 {
        lemma_pieces_of_pairs(es.drop_last());
        assert(ps.drop_last() =~= encoded_pieces(es.drop_last()));
        lemma_encoded_pair_piece(pieces_map(ps.drop_last()), es.last());
        assert(ps.last() == encoded_pair(es.last()));
        assert forall|i: int| 0 <= i < es.len() implies !(#[trigger] ps[i]).contains('&') by {
            lemma_encoded_pair_piece(Map::empty(), es[i]);
        }
    }
}

proof fn lemma_pairs_lookup(es: Seq<(Seq<char>, Seq<char>)>)
    requires
        forall|i: int, j: int| 0 <= i < j < es.len() ==> (#[trigger] es[i]).0 != (#[trigger] es[j]).0,
    ensures
        forall|i: int| 0 <= i < es.len() ==> pairs_map(es).contains_key((#[trigger] es[i]).0)
            && pairs_map(es)[es[i].0] == es[i].1,
        forall|k: Seq<char>| #[trigger] pairs_map(es).contains_key(k) ==> exists|i: int| 0 <= i < es.len() && es[i].0 == k,
    decreases es.len(),
{
    if es.len() > 0 {
        let init = es.drop_last();
        assert forall|i: int, j: int| 0 <= i < j < init.len() implies (#[trigger] init[i]).0 != (#[trigger] init[j]).0 by {
            assert(init[i] == es[i] && init[j] == es[j]);
        }
        lemma_pairs_lookup(init);
        assert forall|i: int| 0 <= i < es.len() implies pairs_map(es).contains_key((#[trigger] es[i]).0)
            && pairs_map(es)[es[i].0] == es[i].1 by {
            if i < es.len() - 1 {
                assert(init[i] == es[i]);
                assert(es[i].0 != es[es.len() - 1].0);
            }
        }
        assert forall|k: Seq<char>| #[trigger] pairs_map(es).contains_key(k) implies exists|i: int| 0 <= i < es.len() && es[i].0 == k by {
            if k != es.last().0 {
                assert(pairs_map(init).contains_key(k));
                let i = choose|i: int| 0 <= i < init.len() && init[i].0 == k;
                assert(es[i] == init[i]);
                assert(es[i].0 == k);
            } else {
                assert(es[es.len() - 1].0 == k);
            }
        }
    }
}

/// Writing distinct keys and their values as encoded `key=value` pieces
/// joined with `&`, in any order, and parsing the query gives back exactly
/// those keys with those values.
pub proof fn law_encoded_query_round_trip(es: Seq<(Seq<char>, Seq<char>)>)
    requires
        forall|i: int, j: int| 0 <= i < j < es.len() ==> (#[trigger] es[i]).0 != (#[trigger] es[j]).0,
    ensures
        forall|i: int| 0 <= i < es.len() ==> query_map(encoded_query(es)).contains_key((#[trigger] es[i]).0)
            && query_map(encoded_query(es))[es[i].0] == es[i].1,
        forall|k: Seq<char>| #[trigger] query_map(encoded_query(es)).contains_key(k)
            ==> exists|i: int| 0 <= i < es.len() && es[i].0 == k,
{
    lemma_pairs_lookup(es);
    if es.len() == 0 {
        let e = Seq::<char>::empty();
        assert(split_on(e, '&') =~= seq![e]);
        assert(seq![e].drop_last() =~= Seq::<Seq<char>>::empty());
        assert(query_map(e) == with_piece(pieces_map(Seq::<Seq<char>>::empty()), e));
        assert(query_map(encoded_query(es)) =~= pairs_map(es));
    } else {
        let ps = encoded_pieces(es);
        lemma_pieces_of_pairs(es);
        lemma_split_join(ps, '&');
    }
}

/// Reading a piece `k=v`, where `k` holds none of `=`, `%`, `&` and `v`
/// no `&`, sets `k` to the decoding of `v`.
pub proof fn lemma_pair_piece(m: Map<Seq<char>, Seq<char>>, k: Seq<char>, v: Seq<char>)
    requires
        !k.contains('=') && !k.contains('%') && !k.contains('&'),
        !v.contains('&'),
    ensures
        with_piece(m, k + seq!['='] + v) == m.insert(k, decode_or_keep(v)),
        !(k + seq!['='] + v).contains('&'),
{
    let e = k + seq!['='] + v;
    crate::urlcodec::lemma_decode_plain(k);
    assert forall|i: int| 0 <= i < k.len() implies e[i] != '=' by {
        assert(e[i] == k[i]);
    }
    assert(e[k.len() as int] == '=');
    lemma_first_at(e, '=', k.len() as int);
    assert(e.take(k.len() as int) =~= k);
    assert(e.skip(k.len() as int + 1) =~= v);
    if e.contains('&') {
        let i = choose|i: int| 0 <= i < e.len() && e[i] == '&';
        if i < k.len() {
            assert(k[i] == '&');
        } else if i > k.len() {
            assert(v[i - k.len() - 1] == '&');
        }
    }
}

} // verus!
