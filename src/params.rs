//! The parameter set of a request: names mapped to string values.

use vstd::prelude::*;
use crate::text::{form_encode, push_form_encoded, str_lt, text_lt};

verus! {

/// Whether no two entries of `s` have the same name.
pub open spec fn keys_unique(s: Seq<(Seq<char>, Seq<char>)>) -> bool {
    forall|i: int, j: int| 0 <= i < j < s.len() ==> s[i].0 != s[j].0
}

/// The view of a list of (name, value) string pairs.
pub open spec fn pairs_view(s: Seq<(String, String)>) -> Seq<(Seq<char>, Seq<char>)> {
    s.map_values(|p: (String, String)| (p.0@, p.1@))
}

/// Whether `s` has an entry named `k`.
pub open spec fn has_key(s: Seq<(Seq<char>, Seq<char>)>, k: Seq<char>) -> bool {
    exists|i: int| 0 <= i < s.len() && s[i].0 == k
}

/// Whether `i` is the first index of an entry named `k`.
pub open spec fn is_first_key_index(s: Seq<(Seq<char>, Seq<char>)>, k: Seq<char>, i: int) -> bool {
    0 <= i < s.len() && s[i].0 == k && forall|j: int| 0 <= j < i ==> s[j].0 != k
}

/// `s` after setting `k` to `v`: the (first) entry named `k` takes the new
/// value in place, or a new entry is added at the end.
pub open spec fn with_entry(s: Seq<(Seq<char>, Seq<char>)>, k: Seq<char>, v: Seq<char>) -> Seq<
    (Seq<char>, Seq<char>),
> {
    if has_key(s, k) {
        s.update(choose|i: int| is_first_key_index(s, k, i), (k, v))
    } else {
        s.push((k, v))
    }
}

/// The index of the entry with the least name (the first such entry).
pub open spec fn least_key_index(s: Seq<(Seq<char>, Seq<char>)>) -> int
    decreases s.len(),
{
    if s.len() <= 1 {
        0
    } else {
        let m = least_key_index(s.drop_last());
        if text_lt(s.last().0, s[m].0) {
            s.len() - 1
        } else {
            m
        }
    }
}

/// The values of `s` concatenated, in ascending order of their names: the
/// value under the least name, then the values of the other entries.
pub open spec fn values_in_key_order(s: Seq<(Seq<char>, Seq<char>)>) -> Seq<char>
    decreases s.len(),
    via values_in_key_order_decreases
{
    if s.len() == 0 {
        seq![]
    } else {
        let m = least_key_index(s);
        s[m].1 + values_in_key_order(s.remove(m))
    }
}

#[via_fn]
proof fn values_in_key_order_decreases(s: Seq<(Seq<char>, Seq<char>)>) {
    if s.len() > 0 {
        lemma_least_key_index_bounds(s);
    }
}

/// The least name's index lies within the entries.
pub proof fn lemma_least_key_index_bounds(s: Seq<(Seq<char>, Seq<char>)>)
    requires
        s.len() > 0,
    ensures
        0 <= least_key_index(s) < s.len(),
    decreases s.len(),
{
    if s.len() > 1 {
        lemma_least_key_index_bounds(s.drop_last());
    }
}

/// Lexicographic order is strict: no two texts each come before the other.
pub proof fn lemma_text_lt_asymmetric(a: Seq<char>, b: Seq<char>)
    ensures
        !(text_lt(a, b) && text_lt(b, a)),
    decreases a.len(),
{
    if a.len() > 0 && b.len() > 0 && a[0] == b[0] {
        lemma_text_lt_asymmetric(a.drop_first(), b.drop_first());
    }
}

/// Whether the names of `s` strictly ascend.
pub open spec fn keys_ascending(s: Seq<(Seq<char>, Seq<char>)>) -> bool {
    forall|i: int, j: int| 0 <= i < j < s.len() ==> text_lt(s[i].0, s[j].0)
}

/// The values of `s` concatenated in the order of its entries.
pub open spec fn values_in_entry_order(s: Seq<(Seq<char>, Seq<char>)>) -> Seq<char>
    decreases s.len(),
{
    if s.len() == 0 {
        seq![]
    } else {
        s[0].1 + values_in_entry_order(s.drop_first())
    }
}

proof fn lemma_least_of_ascending(s: Seq<(Seq<char>, Seq<char>)>)
    requires
        keys_ascending(s),
        s.len() > 0,
    ensures
        least_key_index(s) == 0,
    decreases s.len(),
{
    if s.len() > 1 {
        let d = s.drop_last();
        assert(keys_ascending(d)) by {
            assert forall|i: int, j: int| 0 <= i < j < d.len() implies text_lt(d[i].0, d[j].0) by {
                assert(d[i] == s[i] && d[j] == s[j]);
            }
        }
        lemma_least_of_ascending(d);
        assert(text_lt(s[0].0, s[s.len() - 1].0));
        lemma_text_lt_asymmetric(s[0].0, s.last().0);
    }
}

/// When the names already ascend, the values in key order are the values
/// in the order of the entries.
pub proof fn lemma_ascending_keys_keep_order(s: Seq<(Seq<char>, Seq<char>)>)
    requires
        keys_ascending(s),
    ensures
        values_in_key_order(s) == values_in_entry_order(s),
    decreases s.len(),
{
    if s.len() > 0 {
        lemma_least_of_ascending(s);
        let t = s.drop_first();
        assert(s.remove(0) =~= t);
        assert(keys_ascending(t)) by {
            assert forall|i: int, j: int| 0 <= i < j < t.len() implies text_lt(t[i].0, t[j].0) by {
                assert(t[i] == s[i + 1] && t[j] == s[j + 1]);
            }
        }
        lemma_ascending_keys_keep_order(t);
    }
}

/// One query pair: the form-encoded name, `=`, the form-encoded value.
pub open spec fn pair_text(p: (Seq<char>, Seq<char>)) -> Seq<char> {
    form_encode(p.0) + seq!['='] + form_encode(p.1)
}

/// The query pairs of `s` in ascending order of their names, separated by
/// `&` (`first` tells that no pair has been written before them).
pub open spec fn sorted_pairs_text(s: Seq<(Seq<char>, Seq<char>)>, first: bool) -> Seq<char>
    decreases s.len(),
    via sorted_pairs_text_decreases
{
    if s.len() == 0 {
        seq![]
    } else {
        let m = least_key_index(s);
        (if first {
            seq![]
        } else {
            seq!['&']
        }) + pair_text(s[m]) + sorted_pairs_text(s.remove(m), false)
    }
}

#[via_fn]
proof fn sorted_pairs_text_decreases(s: Seq<(Seq<char>, Seq<char>)>, first: bool) {
    if s.len() > 0 {
        lemma_least_key_index_bounds(s);
    }
}

/// The query part of a URL for `s`: empty when there are no parameters,
/// else `?` and the query pairs in ascending order of their names, so that
/// equal parameter sets give equal queries whatever the order of insertion.
pub open spec fn query_text(s: Seq<(Seq<char>, Seq<char>)>) -> Seq<char> {
    if s.len() == 0 {
        seq![]
    } else {
        seq!['?'] + sorted_pairs_text(s, true)
    }
}

/// A set of request parameters: each name maps to one string value. The
/// entries keep the order in which their names were first inserted, and no
/// two of them share a name.
pub struct Params {
    entries: Vec<(String, String)>,
}

impl View for Params {
    type V = Seq<(Seq<char>, Seq<char>)>;

    closed spec fn view(&self) -> Seq<(Seq<char>, Seq<char>)> {
        pairs_view(self.entries@)
    }
}

impl Params {
    #[verifier::type_invariant]
    closed spec fn names_unique(&self) -> bool {
        keys_unique(pairs_view(self.entries@))
    }

    /// An empty parameter set.
    pub fn new() -> (r: Params)
        ensures
            r@ == Seq::<(Seq<char>, Seq<char>)>::empty(),
    {
        let r = Params { entries: Vec::new() };
        assert(r@ =~= Seq::<(Seq<char>, Seq<char>)>::empty());
        r
    }

    /// Sets the parameter `key` to `value`, replacing any earlier value.
    pub fn insert(&mut self, key: String, value: String)
        ensures
            final(self)@ == with_entry(old(self)@, key@, value@),
    {
        proof {
            use_type_invariant(&*self);
        }
        let ghost s = self@;
        let n = self.entries.len();
        let mut found: Option<usize> = None;
        let mut i: usize = 0;
        while i < n
            invariant_except_break
                found is None,
                forall|j: int| 0 <= j < i ==> s[j].0 != key@,
            invariant
                n == self.entries@.len(),
                s == pairs_view(self.entries@),
                i <= n,
            ensures
                found matches Some(k) ==> k < n && is_first_key_index(s, key@, k as int),
                found is None ==> !has_key(s, key@),
            decreases n - i,
        {
            if self.entries[i].0 == key {
                found = Some(i);
                break;
            }
            i = i + 1;
        }
        let mut entries: Vec<(String, String)> = Vec::new();
        let mut j: usize = 0;
        while j < n
            invariant
                n == self.entries@.len(),
                s == pairs_view(self.entries@),
                j <= n,
                found matches Some(k) ==> k < n,
                entries@.len() == j,
                forall|k: int|
                    0 <= k < j ==> if found matches Some(f) && f == k {
                        (#[trigger] entries@[k]).0@ == key@ && entries@[k].1@ == value@
                    } else {
                        entries@[k].0@ == s[k].0 && entries@[k].1@ == s[k].1
                    },
            decreases n - j,
        {
            let replace = match found {
                Some(k) => k == j,
                None => false,
            };
            if replace {
                entries.push((key.clone(), value.clone()));
            } else {
                entries.push((self.entries[j].0.clone(), self.entries[j].1.clone()));
            }
            j = j + 1;
        }
        match found {
            Some(k) => {
                proof {
                    let c = choose|x: int| is_first_key_index(s, key@, x);
                    if c < k {
                        assert(s[c].0 != key@);
                    } else if c > k {
                        assert(s[k as int].0 != key@);
                    }
                    assert(c == k);
                }
                assert(pairs_view(entries@) =~= with_entry(s, key@, value@));
            },
            None => {
                entries.push((key, value));
                assert(pairs_view(entries@) =~= with_entry(s, key@, value@));
                assert(keys_unique(pairs_view(entries@))) by {
                    assert forall|x: int, y: int|
                        0 <= x < y < pairs_view(entries@).len() implies pairs_view(entries@)[x].0
                        != pairs_view(entries@)[y].0 by {
                        if y == n {
                            assert(s[x].0 != key@);
                        }
                    }
                }
            },
        }
        self.entries = entries;
    }

    /// The number of parameters.
    pub fn len(&self) -> (r: usize)
        ensures
            r == self@.len(),
    {
        self.entries.len()
    }

    /// The entries as (name, value) pairs, in insertion order; no two of
    /// them share a name.
    pub fn entries(&self) -> (r: &Vec<(String, String)>)
        ensures
            pairs_view(r@) == self@,
            keys_unique(self@),
    {
        proof {
            use_type_invariant(self);
        }
        &self.entries
    }

    /// The values concatenated in ascending order of their names, with no
    /// separators.
    pub fn values_in_key_order(&self) -> (r: String)
        ensures
            r@ == values_in_key_order(self@),
    {
        let mut rest: Vec<(String, String)> = Vec::new();
        let n = self.entries.len();
        let mut i: usize = 0;
        while i < n
            invariant
                n == self.entries@.len(),
                i <= n,
                rest@ == self.entries@.take(i as int),
            decreases n - i,
        {
            let k = self.entries[i].0.clone();
            let v = self.entries[i].1.clone();
            rest.push((k, v));
            assert(self.entries@.take(i + 1) =~= self.entries@.take(i as int).push(
                self.entries@[i as int],
            ));
            i = i + 1;
        }
        assert(rest@ =~= self.entries@);
        let mut out = String::new();
        assert(out@ + values_in_key_order(pairs_view(rest@)) =~= values_in_key_order(self@));
        while rest.len() > 0
            invariant
                out@ + values_in_key_order(pairs_view(rest@)) == values_in_key_order(self@),
            decreases rest.len(),
        {
            let ghost s = pairs_view(rest@);
            let m = least_index(&rest);
            out.append(rest[m].1.as_str());
            let _ = rest.remove(m);
            assert(pairs_view(rest@) =~= s.remove(m as int));
            assert(out@ + values_in_key_order(pairs_view(rest@)) =~= values_in_key_order(self@));
        }
        assert(values_in_key_order(pairs_view(rest@)) =~= Seq::<char>::empty());
        assert(out@ =~= values_in_key_order(self@));
        out
    }

    /// Appends the query part of a URL for these parameters to `out`: the
    /// pairs in ascending order of their names.
    pub fn push_query(&self, out: &mut String)
        ensures
            final(out)@ == old(out)@ + query_text(self@),
    {
        let n = self.entries.len();
        if n == 0 {
            assert(old(out)@ + query_text(self@) =~= old(out)@);
            return;
        }
        let mut rest: Vec<(String, String)> = Vec::new();
        let mut i: usize = 0;
        while i < n
            invariant
                n == self.entries@.len(),
                i <= n,
                rest@ == self.entries@.take(i as int),
            decreases n - i,
        {
            let k = self.entries[i].0.clone();
            let v = self.entries[i].1.clone();
            rest.push((k, v));
            assert(self.entries@.take(i + 1) =~= self.entries@.take(i as int).push(
                self.entries@[i as int],
            ));
            i = i + 1;
        }
        assert(rest@ =~= self.entries@);
        proof {
            reveal_strlit("?");
            reveal_strlit("&");
            reveal_strlit("=");
        }
        out.append("?");
        let ghost target = old(out)@ + query_text(self@);
        let mut first = true;
        assert(out@ + sorted_pairs_text(pairs_view(rest@), first) =~= target);
        while rest.len() > 0
            invariant
                out@ + sorted_pairs_text(pairs_view(rest@), first) == target,
                "&"@ == seq!['&'],
                "="@ == seq!['='],
            decreases rest.len(),
        {
            let ghost s = pairs_view(rest@);
            let m = least_index(&rest);
            if !first {
                out.append("&");
            }
            push_form_encoded(out, rest[m].0.as_str());
            out.append("=");
            push_form_encoded(out, rest[m].1.as_str());
            let _ = rest.remove(m);
            assert(pairs_view(rest@) =~= s.remove(m as int));
            assert(out@ + sorted_pairs_text(pairs_view(rest@), false) =~= target);
            first = false;
        }
        assert(sorted_pairs_text(pairs_view(rest@), first) =~= Seq::<char>::empty());
        assert(out@ =~= target);
    }
}

fn least_index(s: &Vec<(String, String)>) -> (m: usize)
    requires
        s@.len() > 0,
    ensures
        m == least_key_index(pairs_view(s@)),
        m < s@.len(),
{
    let ghost v = pairs_view(s@);
    let n = s.len();
    let mut m: usize = 0;
    let mut i: usize = 1;
    assert(v.take(1).len() == 1);
    while i < n
        invariant
            n == s@.len(),
            v == pairs_view(s@),
            1 <= i <= n,
            m < i,
            m == least_key_index(v.take(i as int)),
        decreases n - i,
    {
        if str_lt(s[i].0.as_str(), s[m].0.as_str()) {
            m = i;
        }
        assert(v.take(i + 1).drop_last() =~= v.take(i as int));
        i = i + 1;
    }
    assert(v.take(n as int) =~= v);
    m
}

} // verus!
