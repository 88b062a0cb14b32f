//! Sorting entries by name, keeping entries of the same name in the order in
//! which they came.

use vstd::prelude::*;
use crate::entry::{entries, Entry, FileInfo};
use crate::order::{lemma_name_le_antisymmetric, lemma_name_le_total_preorder, name_le, precedes};

verus! {

/// No entry is followed by one whose name comes strictly before its own.
pub open spec fn sorted_by_name(s: Seq<Entry>) -> bool {
    forall|i: int, j: int|
        0 <= i <= j < s.len() ==> name_le(#[trigger] s[i].name, #[trigger] s[j].name)
}

/// The entries of `s` that are called `name`, in the order in which they
/// stand in `s`.
pub open spec fn with_name(s: Seq<Entry>, name: Seq<char>) -> Seq<Entry> {
    s.filter(|e: Entry| e.name == name)
}

/// `out` holds the entries of `inp` ordered by name, and the entries of one
/// name stand in `out` as they stood in `inp`.
pub open spec fn stable_sort_of(out: Seq<Entry>, inp: Seq<Entry>) -> bool {
    &&& sorted_by_name(out)
    &&& forall|name: Seq<char>| #[trigger] with_name(out, name) == with_name(inp, name)
}

/// The entries of `s` ordered by name, those of one name in the order in
/// which they stand in `s`. There is exactly one such sequence:
/// [`lemma_sorted`] and [`lemma_stable_sort_unique`].
pub open spec fn sorted(s: Seq<Entry>) -> Seq<Entry> {
    choose|out: Seq<Entry>| stable_sort_of(out, s)
}

/// The entry `x` alone where it is called `name`, else nothing.
pub open spec fn only_named(x: Entry, name: Seq<char>) -> Seq<Entry> {
    if x.name == name {
        seq![x]
    } else {
        Seq::empty()
    }
}

proof fn lemma_with_name_none(s: Seq<Entry>, name: Seq<char>)
    requires
        forall|i: int| 0 <= i < s.len() ==> (#[trigger] s[i]).name != name,
    ensures
        with_name(s, name) == Seq::<Entry>::empty(),
    decreases s.len(),
{
    reveal(Seq::filter);
    if s.len() > 0 {
        lemma_with_name_none(s.drop_last(), name);
    }
}

proof fn lemma_with_name_first(s: Seq<Entry>, name: Seq<char>)
    requires
        s.len() > 0,
    ensures
        with_name(s, name) == only_named(s[0], name) + with_name(s.drop_first(), name),
{
    assert(s =~= seq![s[0]] + s.drop_first());
    s.drop_first().lemma_filter_prepend(s[0], |e: Entry| e.name == name);
}

/// Where `x` goes into the sorted sequence `s`: behind every entry that
/// comes strictly before it, and before the first that does not.
spec fn is_insert_point(s: Seq<Entry>, x: Entry, p: int) -> bool {
    &&& 0 <= p <= s.len()
    &&& forall|i: int| 0 <= i < p ==> !name_le(x.name, #[trigger] s[i].name)
    &&& p < s.len() ==> name_le(x.name, s[p].name)
}

proof fn lemma_insert_point(s: Seq<Entry>, x: Entry, from: int) -> (p: int)
    requires
        0 <= from <= s.len(),
        forall|i: int| 0 <= i < from ==> !name_le(x.name, #[trigger] s[i].name),
    ensures
        is_insert_point(s, x, p),
    decreases s.len() - from,
{
    if from < s.len() && !name_le(x.name, s[from].name) {
        lemma_insert_point(s, x, from + 1)
    } else {
        from
    }
}

/// Putting `x` in at its insert point sorts `x` followed by what `s` sorts.
proof fn lemma_insert_sorts(s: Seq<Entry>, x: Entry, p: int, inp: Seq<Entry>)
    requires
        stable_sort_of(s, inp),
        is_insert_point(s, x, p),
    ensures
        stable_sort_of(s.insert(p, x), seq![x] + inp),
{
    let after = s.insert(p, x);
    let now = seq![x] + inp;
    assert forall|i: int| 0 <= i < p implies (#[trigger] s[i]).name != x.name by {
        lemma_name_le_total_preorder(x.name, x.name, x.name);
    }
    assert forall|name: Seq<char>| #[trigger] with_name(after, name) == with_name(now, name) by {
        let pred = |e: Entry| e.name == name;
        let head = s.subrange(0, p);
        let tail = s.subrange(p, s.len() as int);
        assert(s =~= head + tail);
        assert(after =~= head + (seq![x] + tail));
        Seq::filter_distributes_over_add(head, tail, pred);
        Seq::filter_distributes_over_add(head, seq![x] + tail, pred);
        tail.lemma_filter_prepend(x, pred);
        inp.lemma_filter_prepend(x, pred);
        assert(with_name(s, name) == with_name(inp, name));
        if x.name == name {
            lemma_with_name_none(head, name);
        }
        assert(with_name(after, name) =~= only_named(x, name) + with_name(s, name));
    }
    assert forall|i: int, j: int| 0 <= i <= j < after.len() implies name_le(
        #[trigger] after[i].name,
        #[trigger] after[j].name,
    ) by {
        let a = after[i].name;
        let b = after[j].name;
        if i == j {
            lemma_name_le_total_preorder(a, a, a);
        } else if j < p {
            assert(after[i] == s[i] && after[j] == s[j]);
        } else if j == p {
            assert(after[i] == s[i]);
            lemma_name_le_total_preorder(x.name, a, a);
        } else if i < p {
            assert(after[i] == s[i] && after[j] == s[j - 1]);
        } else if i == p {
            assert(after[j] == s[j - 1]);
            lemma_name_le_total_preorder(x.name, s[p].name, b);
        } else {
            assert(after[i] == s[i - 1] && after[j] == s[j - 1]);
        }
    }
}

proof fn lemma_stable_sort_exists(s: Seq<Entry>)
    ensures
        exists|out: Seq<Entry>| stable_sort_of(out, s),
    decreases s.len(),
{
    if s.len() == 0 {
        assert(stable_sort_of(s, s));
    } else {
        let rest = s.drop_first();
        lemma_stable_sort_exists(rest);
        let out = choose|out: Seq<Entry>| stable_sort_of(out, rest);
        let p = lemma_insert_point(out, s[0], 0);
        lemma_insert_sorts(out, s[0], p, rest);
        assert(s =~= seq![s[0]] + rest);
        assert(stable_sort_of(out.insert(p, s[0]), s));
    }
}

proof fn lemma_sorted_determined(a: Seq<Entry>, b: Seq<Entry>)
    requires
        sorted_by_name(a),
        sorted_by_name(b),
        forall|name: Seq<char>| #[trigger] with_name(a, name) == with_name(b, name),
    ensures
        a == b,
    decreases a.len(),
{
    if a.len() == 0 {
        if b.len() > 0 {
            lemma_with_name_first(b, b[0].name);
            lemma_with_name_none(a, b[0].name);
            assert(with_name(a, b[0].name) == with_name(b, b[0].name));
            assert(false);
        }
        assert(a =~= b);
    } else {
        let m = a[0].name;
        lemma_with_name_first(a, m);
        assert(with_name(a, m) == with_name(b, m));
        if forall|k: int| 0 <= k < b.len() ==> (#[trigger] b[k]).name != m {
            lemma_with_name_none(b, m);
            assert(false);
        }
        let k = choose|k: int| 0 <= k < b.len() && (#[trigger] b[k]).name == m;
        let n = b[0].name;
        lemma_with_name_first(b, n);
        assert(with_name(a, n) == with_name(b, n));
        if forall|j: int| 0 <= j < a.len() ==> (#[trigger] a[j]).name != n {
            lemma_with_name_none(a, n);
            assert(false);
        }
        let j = choose|j: int| 0 <= j < a.len() && (#[trigger] a[j]).name == n;
        assert(name_le(a[0].name, a[j].name));
        assert(name_le(b[0].name, b[k].name));
        lemma_name_le_antisymmetric(m, n);
        lemma_with_name_first(b, m);
        let x = with_name(a.drop_first(), m);
        let y = with_name(b.drop_first(), m);
        assert(seq![a[0]] + x == seq![b[0]] + y);
        assert((seq![a[0]] + x)[0] == a[0]);
        assert((seq![b[0]] + y)[0] == b[0]);
        assert forall|name: Seq<char>| #[trigger]
            with_name(a.drop_first(), name) == with_name(b.drop_first(), name) by {
            lemma_with_name_first(a, name);
            lemma_with_name_first(b, name);
            assert(with_name(a, name) == with_name(b, name));
            let u = with_name(a.drop_first(), name);
            let v = with_name(b.drop_first(), name);
            assert(only_named(a[0], name) + u == only_named(b[0], name) + v);
            if name == m {
                assert((seq![a[0]] + u).drop_first() =~= u);
                assert((seq![b[0]] + v).drop_first() =~= v);
            } else {
                assert(Seq::<Entry>::empty() + u =~= u);
                assert(Seq::<Entry>::empty() + v =~= v);
            }
        }
        assert(sorted_by_name(a.drop_first())) by {
            assert forall|i: int, j: int| 0 <= i <= j < a.drop_first().len() implies name_le(
                #[trigger] a.drop_first()[i].name,
                #[trigger] a.drop_first()[j].name,
            ) by {
                assert(name_le(a[i + 1].name, a[j + 1].name));
            }
        }
        assert(sorted_by_name(b.drop_first())) by {
            assert forall|i: int, j: int| 0 <= i <= j < b.drop_first().len() implies name_le(
                #[trigger] b.drop_first()[i].name,
                #[trigger] b.drop_first()[j].name,
            ) by {
                assert(name_le(b[i + 1].name, b[j + 1].name));
            }
        }
        lemma_sorted_determined(a.drop_first(), b.drop_first());
        assert(a =~= seq![a[0]] + a.drop_first());
        assert(b =~= seq![b[0]] + b.drop_first());
    }
}

/// Two sequences that both sort `s` by name, keeping the order of entries of
/// the same name, are the same sequence.
pub proof fn lemma_stable_sort_unique(a: Seq<Entry>, b: Seq<Entry>, s: Seq<Entry>)
    requires
        stable_sort_of(a, s),
        stable_sort_of(b, s),
    ensures
        a == b,
{
    assert forall|name: Seq<char>| #[trigger] with_name(a, name) == with_name(b, name) by {
        assert(with_name(a, name) == with_name(s, name));
        assert(with_name(b, name) == with_name(s, name));
    }
    lemma_sorted_determined(a, b);
}

/// Every sequence of entries has a sorted form, and [`sorted`] is it.
pub proof fn lemma_sorted(s: Seq<Entry>)
    ensures
        stable_sort_of(sorted(s), s),
{
    lemma_stable_sort_exists(s);
}

/// Sorting keeps every entry and adds none: the sorted form holds the
/// entries of the sequence it sorts, each as often as that sequence does.
pub proof fn lemma_sorted_permutes(s: Seq<Entry>)
    ensures
        sorted(s).to_multiset() == s.to_multiset(),
        sorted(s).len() == s.len(),
    decreases s.len(),
{
    lemma_sorted(s);
    if s.len() == 0 {
        assert(stable_sort_of(s, s));
        lemma_stable_sort_unique(sorted(s), s, s);
    } else {
        let rest = s.drop_first();
        lemma_sorted(rest);
        lemma_sorted_permutes(rest);
        let p = lemma_insert_point(sorted(rest), s[0], 0);
        lemma_insert_sorts(sorted(rest), s[0], p, rest);
        assert(s =~= seq![s[0]] + rest);
        lemma_stable_sort_unique(sorted(s), sorted(rest).insert(p, s[0]), s);
        vstd::seq_lib::to_multiset_insert(sorted(rest), p, s[0]);
        vstd::seq_lib::to_multiset_insert(rest, 0, s[0]);
        assert(rest.insert(0, s[0]) =~= s);
    }
}

/// Orders `files` by name; entries of the same name keep their order.
pub fn sort_by_name(files: Vec<FileInfo>) -> (out: Vec<FileInfo>)
    ensures
        entries(out@) == sorted(entries(files@)),
{
    let mut rest = files;
    let mut out: Vec<FileInfo> = Vec::new();
    proof {
        assert(entries(files@).skip(rest@.len() as int) =~= entries(out@));
    }
    while rest.len() > 0
        invariant
            rest@.len() <= files@.len(),
            rest@ == files@.take(rest@.len() as int),
            stable_sort_of(entries(out@), entries(files@).skip(rest@.len() as int)),
        decreases rest@.len(),
    {
        let ghost before = entries(out@);
        let ghost done = entries(files@).skip(rest@.len() as int);
        let item = rest.pop().unwrap();
        let mut p: usize = 0;
        while p < out.len() && !precedes(item.name.as_str(), out[p].name.as_str())
            invariant
                p <= out@.len(),
                forall|i: int| 0 <= i < p ==> !name_le(item.name@, #[trigger] out@[i].name@),
            decreases out@.len() - p,
        {
            p += 1;
        }
        let ghost x = item@;
        out.insert(p, item);
        proof {
            assert(entries(out@) =~= before.insert(p as int, x));
            assert(entries(files@).skip(rest@.len() as int) =~= seq![x] + done);
            assert(is_insert_point(before, x, p as int));
            lemma_insert_sorts(before, x, p as int, done);
        }
    }
    proof {
        assert(entries(files@).skip(0) =~= entries(files@));
        lemma_sorted(entries(files@));
        lemma_stable_sort_unique(entries(out@), sorted(entries(files@)), entries(files@));
    }
    out
}

} // verus!
