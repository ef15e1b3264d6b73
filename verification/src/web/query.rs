//! Query strings: `key=value` pairs separated by `&`.
use vstd::prelude::*;
use vstd::string::StrSliceExecFns;

verus! {

/// `s` split at every `sep`; an empty string gives one empty piece.
pub open spec fn split_on(s: Seq<char>, sep: char) -> Seq<Seq<char>>
    decreases s.len(),
{
    if s.len() == 0 {
        seq![Seq::<char>::empty()]
    } else {
        let init = split_on(s.drop_last(), sep);
        if s.last() == sep {
            init.push(Seq::<char>::empty())
        } else {
            init.update(init.len() - 1, init.last().push(s.last()))
        }
    }
}

/// Index of the first `c` in `s`, or the length of `s` when there is none.
pub open spec fn find_char(s: Seq<char>, c: char) -> int
    decreases s.len(),
{
    if s.len() == 0 {
        0
    } else if s[0] == c {
        0
    } else {
        1 + find_char(s.drop_first(), c)
    }
}

/// A piece `key=value` split at its first `=`; a piece without `=` is a key with an empty
/// value.
pub open spec fn pair_of(seg: Seq<char>) -> (Seq<char>, Seq<char>) {
    let k = find_char(seg, '=');
    if k < seg.len() {
        (seg.take(k), seg.skip(k + 1))
    } else {
        (seg, Seq::<char>::empty())
    }
}

/// The pairs of the non-empty pieces, in order.
pub open spec fn pairs_of(segs: Seq<Seq<char>>) -> Seq<(Seq<char>, Seq<char>)>
    decreases segs.len(),
{
    if segs.len() == 0 {
        Seq::empty()
    } else {
        let rest = pairs_of(segs.drop_last());
        if segs.last().len() == 0 {
            rest
        } else {
            rest.push(pair_of(segs.last()))
        }
    }
}

/// The pairs of a query string.
pub open spec fn spec_parse_query(s: Seq<char>) -> Seq<(Seq<char>, Seq<char>)> {
    pairs_of(split_on(s, '&'))
}

/// The value of the last pair with the given key: a later pair overrides an earlier one.
pub open spec fn spec_query_get(pairs: Seq<(Seq<char>, Seq<char>)>, key: Seq<char>) -> Option<
    Seq<char>,
>
    decreases pairs.len(),
{
    if pairs.len() == 0 {
        None
    } else if pairs.last().0 == key {
        Some(pairs.last().1)
    } else {
        spec_query_get(pairs.drop_last(), key)
    }
}

/// The parameters of a query string, in order of appearance.
#[derive(Debug)]
pub struct QueryParams {
    pairs: Vec<(String, String)>,
}

pub open spec fn pair_view(p: (String, String)) -> (Seq<char>, Seq<char>) {
    (p.0@, p.1@)
}

impl View for QueryParams {
    type V = Seq<(Seq<char>, Seq<char>)>;

    closed spec fn view(&self) -> Seq<(Seq<char>, Seq<char>)> {
        self.pairs@.map_values(|p: (String, String)| pair_view(p))
    }
}

impl QueryParams {
    /// The value of the parameter `key`, from its last occurrence.
    pub fn get(&self, key: &str) -> (r: Option<&String>)
        ensures
            r is Some <==> spec_query_get(self@, key@) is Some,
            r matches Some(v) ==> spec_query_get(self@, key@) == Some(v@),
    {
        let mut i = self.pairs.len();
        assert(self@.take(i as int) =~= self@);
        while i > 0
            invariant
                i <= self.pairs@.len(),
                spec_query_get(self@, key@) == spec_query_get(self@.take(i as int), key@),
            decreases i,
        {
            let ghost pre = self@.take(i as int);
            assert(pre.drop_last() =~= self@.take(i - 1));
            if crate::text::str_eq(self.pairs[i - 1].0.as_str(), key) {
                return Some(&self.pairs[i - 1].1);
            }
            i = i - 1;
        }
        None
    }
}

proof fn lemma_split_nonempty(s: Seq<char>, sep: char)
    ensures
        split_on(s, sep).len() >= 1,
    decreases s.len(),
{
    if s.len() > 0 {
        lemma_split_nonempty(s.drop_last(), sep);
    }
}

proof fn lemma_find_char(s: Seq<char>, c: char, j: int)
    requires
        0 <= j <= s.len(),
        forall|k: int| 0 <= k < j ==> s[k] != c,
        j < s.len() ==> s[j] == c,
    ensures
        find_char(s, c) == j,
    decreases s.len(),
{
    if s.len() > 0 && j > 0 {
        lemma_find_char(s.drop_first(), c, j - 1);
    }
}

/// The pair of the piece `s[start..end]`.
fn parse_pair(s: &str, start: usize, end: usize) -> (p: (String, String))
    requires
        start < end <= s@.len(),
    ensures
        pair_view(p) == pair_of(s@.subrange(start as int, end as int)),
{
    let ghost seg = s@.subrange(start as int, end as int);
    let mut j = start;
    let mut found = false;
    while !found && j < end
        invariant
            start <= j <= end <= s@.len(),
            seg == s@.subrange(start as int, end as int),
            forall|k: int| 0 <= k < j - start ==> seg[k] != '=',
            found ==> j < end && seg[j - start] == '=',
        decreases end - j, (if found { 0int } else { 1int }),
    {
        if s.get_char(j) == '=' {
            found = true;
        } else {
            j = j + 1;
        }
    }
    proof {
        lemma_find_char(seg, '=', j - start);
    }
    if j < end {
        let key = s.substring_char(start, j).to_owned();
        let value = s.substring_char(j + 1, end).to_owned();
        assert(key@ =~= seg.take(j - start));
        assert(value@ =~= seg.skip(j - start + 1));
        (key, value)
    } else {
        let key = s.substring_char(start, end).to_owned();
        (key, String::new())
    }
}

/// Parses a query string into its parameters: the string is split at `&`, empty pieces
/// are skipped, and each piece is split at its first `=`.
pub fn parse_query_string(query_str: &str) -> (q: QueryParams)
    ensures
        q@ == spec_parse_query(query_str@),
{
    let n = query_str.unicode_len();
    let ghost s = query_str@;
    let mut pairs: Vec<(String, String)> = Vec::new();
    let mut start: usize = 0;
    let mut i: usize = 0;
    proof {
        lemma_split_nonempty(s.take(0), '&');
        assert(s.take(0) =~= Seq::<char>::empty());
    }
    while i < n
        invariant
            n == s.len(),
            s == query_str@,
            start <= i <= n,
            split_on(s.take(i as int), '&').last() == s.subrange(start as int, i as int),
            pairs@.map_values(|p: (String, String)| pair_view(p)) == pairs_of(
                split_on(s.take(i as int), '&').drop_last(),
            ),
        decreases n - i,
    {
        let c = query_str.get_char(i);
        let ghost before = split_on(s.take(i as int), '&');
        proof {
            assert(s.take(i + 1).drop_last() =~= s.take(i as int));
            lemma_split_nonempty(s.take(i as int), '&');
        }
        if c == '&' {
            if start < i {
                let p = parse_pair(query_str, start, i);
                pairs.push(p);
            }
            proof {
                let after = split_on(s.take(i + 1), '&');
                assert(after == before.push(Seq::<char>::empty()));
                assert(after.drop_last() =~= before);
                assert(before =~= before.drop_last().push(before.last()));
                assert(pairs@.map_values(|p: (String, String)| pair_view(p)) =~= pairs_of(before));
                assert(s.subrange(i + 1, i + 1) =~= Seq::<char>::empty());
            }
            start = i + 1;
        } else {
            proof {
                let after = split_on(s.take(i + 1), '&');
                assert(after.drop_last() =~= before.drop_last());
                assert(after.last() =~= s.subrange(start as int, i + 1));
            }
        }
        i = i + 1;
    }
    let ghost segs = split_on(s.take(n as int), '&');
    proof {
        assert(s.take(n as int) =~= s);
        lemma_split_nonempty(s, '&');
        assert(segs =~= segs.drop_last().push(segs.last()));
    }
    if start < n {
        let p = parse_pair(query_str, start, n);
        pairs.push(p);
    }
    proof {
        assert(pairs@.map_values(|p: (String, String)| pair_view(p)) =~= pairs_of(segs));
    }
    QueryParams { pairs }
}

/// Looking a key up gives the value of its last pair: nothing in an empty query, the new
/// value right after a pair with that key is added, and what it gave before after a pair
/// with another key is added.
pub proof fn law_query_get_last_wins(
    q: Seq<(Seq<char>, Seq<char>)>,
    k: Seq<char>,
    v: Seq<char>,
    other: Seq<char>,
)
    ensures
        spec_query_get(Seq::empty(), k) is None,
        spec_query_get(q.push((k, v)), k) == Some(v),
        other != k ==> spec_query_get(q.push((k, v)), other) == spec_query_get(q, other),
{
    assert(q.push((k, v)).drop_last() =~= q);
}

proof fn lemma_split_concat(a: Seq<char>, b: Seq<char>)
    ensures
        split_on(a + seq!['&'] + b, '&') == split_on(a, '&') + split_on(b, '&'),
    decreases b.len(),
{
    let s = a + seq!['&'] + b;
    if b.len() == 0 {
        assert(s.drop_last() =~= a);
        assert(split_on(a, '&').push(Seq::<char>::empty()) =~= split_on(a, '&') + split_on(b, '&'));
    } else {
        let b1 = b.drop_last();
        assert(s.drop_last() =~= a + seq!['&'] + b1);
        lemma_split_concat(a, b1);
        lemma_split_nonempty(b1, '&');
        let x = split_on(a, '&');
        let y = split_on(b1, '&');
        if b.last() == '&' {
            assert((x + y).push(Seq::<char>::empty()) =~= x + y.push(Seq::<char>::empty()));
        } else {
            let init = x + y;
            assert(init.update(init.len() - 1, init.last().push(b.last())) =~= x + y.update(
                y.len() - 1,
                y.last().push(b.last()),
            ));
        }
    }
}

proof fn lemma_pairs_concat(x: Seq<Seq<char>>, y: Seq<Seq<char>>)
    ensures
        pairs_of(x + y) == pairs_of(x) + pairs_of(y),
    decreases y.len(),
{
    if y.len() == 0 {
        assert(x + y =~= x);
        assert(pairs_of(x) + pairs_of(y) =~= pairs_of(x));
    } else {
        assert((x + y).drop_last() =~= x + y.drop_last());
        lemma_pairs_concat(x, y.drop_last());
        if y.last().len() != 0 {
            assert((pairs_of(x) + pairs_of(y.drop_last())).push(pair_of(y.last())) =~= pairs_of(x)
                + pairs_of(y.drop_last()).push(pair_of(y.last())));
        }
    }
}

proof fn lemma_split_without_sep(s: Seq<char>)
    requires
        forall|i: int| 0 <= i < s.len() ==> s[i] != '&',
    ensures
        split_on(s, '&') == seq![s],
    decreases s.len(),
{
    if s.len() == 0 {
        assert(s =~= Seq::<char>::empty());
    } else {
        lemma_split_without_sep(s.drop_last());
        assert(s.drop_last().push(s.last()) =~= s);
        assert(seq![s.drop_last()].update(0, s.drop_last().push(s.last())) =~= seq![s]);
    }
}

/// Pieces joined by `&` give the pairs of the pieces in order; a non-empty piece without
/// `&` gives one pair: the key before its first `=` and the value after it, or the whole
/// piece as the key with an empty value when it has no `=`.
pub proof fn law_query_pieces(a: Seq<char>, b: Seq<char>, key: Seq<char>, value: Seq<char>)
    ensures
        spec_parse_query(a + seq!['&'] + b) == spec_parse_query(a) + spec_parse_query(b),
        (forall|i: int| 0 <= i < key.len() ==> key[i] != '&' && key[i] != '=') && (forall|i: int|
            0 <= i < value.len() ==> value[i] != '&') && key.len() > 0 ==> spec_parse_query(
            key + seq!['='] + value,
        ) == seq![(key, value)],
        (forall|i: int| 0 <= i < key.len() ==> key[i] != '&' && key[i] != '=') && key.len() > 0
            ==> spec_parse_query(key) == seq![(key, Seq::<char>::empty())],
{
    lemma_split_concat(a, b);
    lemma_pairs_concat(split_on(a, '&'), split_on(b, '&'));
    if (forall|i: int| 0 <= i < key.len() ==> key[i] != '&' && key[i] != '=') && key.len() > 0 {
        lemma_split_without_sep(key);
        assert(seq![key].drop_last() =~= Seq::<Seq<char>>::empty());
        lemma_find_char(key, '=', key.len() as int);
        reveal_with_fuel(pairs_of, 2);
        assert(seq![key].last() == key);
        assert(pairs_of(seq![key]) =~= seq![pair_of(key)]);
        if forall|i: int| 0 <= i < value.len() ==> value[i] != '&' {
            let seg = key + seq!['='] + value;
            assert forall|i: int| 0 <= i < seg.len() implies seg[i] != '&' by {
                if i < key.len() {
                } else if i > key.len() {
                    assert(seg[i] == value[i - key.len() - 1]);
                }
            }
            lemma_split_without_sep(seg);
            assert(seq![seg].drop_last() =~= Seq::<Seq<char>>::empty());
            lemma_find_char(seg, '=', key.len() as int);
            assert(seg.take(key.len() as int) =~= key);
            assert(seg.skip(key.len() + 1int) =~= value);
            assert(seq![seg].last() == seg);
            assert(pairs_of(seq![seg]) =~= seq![pair_of(seg)]);
        }
    }
}

} // verus!
