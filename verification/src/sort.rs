//! Sorting texts in the order `String`'s `Ord` gives them.

use vstd::prelude::*;
use vstd::relations::{sorted_by, total_ordering};
use crate::text::to_chars;

verus! {

/// Lexicographic order of texts by code point. UTF-8 keeps the order of code
/// points, so this is the byte order that `str`'s `Ord` compares by.
pub open spec fn text_le(a: Seq<char>, b: Seq<char>) -> bool
    decreases a.len(),
{
    if a.len() == 0 {
        true
    } else if b.len() == 0 {
        false
    } else if a[0] != b[0] {
        a[0] < b[0]
    } else {
        text_le(a.drop_first(), b.drop_first())
    }
}

pub open spec fn text_le_fn() -> spec_fn(Seq<char>, Seq<char>) -> bool {
    |a: Seq<char>, b: Seq<char>| text_le(a, b)
}

proof fn lemma_text_le_reflexive(a: Seq<char>)
    ensures
        text_le(a, a),
    decreases a.len(),
{
    if a.len() > 0 {
        lemma_text_le_reflexive(a.drop_first());
    }
}

proof fn lemma_text_le_antisymmetric(a: Seq<char>, b: Seq<char>)
    requires
        text_le(a, b),
        text_le(b, a),
    ensures
        a == b,
    decreases a.len(),
{
    if a.len() > 0 && b.len() > 0 {
        lemma_text_le_antisymmetric(a.drop_first(), b.drop_first());
        assert(a =~= seq![a[0]] + a.drop_first());
        assert(b =~= seq![b[0]] + b.drop_first());
    }
}

proof fn lemma_text_le_transitive(a: Seq<char>, b: Seq<char>, c: Seq<char>)
    requires
        text_le(a, b),
        text_le(b, c),
    ensures
        text_le(a, c),
    decreases a.len(),
{
    if a.len() > 0 && b.len() > 0 && c.len() > 0 {
        if a[0] == b[0] && b[0] == c[0] {
            lemma_text_le_transitive(a.drop_first(), b.drop_first(), c.drop_first());
        }
    }
}

proof fn lemma_text_le_total(a: Seq<char>, b: Seq<char>)
    ensures
        text_le(a, b) || text_le(b, a),
    decreases a.len(),
{
    if a.len() > 0 && b.len() > 0 && a[0] == b[0] {
        lemma_text_le_total(a.drop_first(), b.drop_first());
    }
}

/// Lexicographic order is a total order.
pub proof fn lemma_text_le_total_ordering()
    ensures
        total_ordering(text_le_fn()),
{
    assert forall|a: Seq<char>| #[trigger] text_le_fn()(a, a) by {
        lemma_text_le_reflexive(a);
    }
    assert forall|a: Seq<char>, b: Seq<char>| #[trigger] text_le_fn()(a, b) && #[trigger] text_le_fn()(b, a) implies a == b by {
        lemma_text_le_antisymmetric(a, b);
    }
    assert forall|a: Seq<char>, b: Seq<char>, c: Seq<char>| #[trigger] text_le_fn()(a, b) && #[trigger] text_le_fn()(b, c) implies text_le_fn()(a, c) by {
        lemma_text_le_transitive(a, b, c);
    }
    assert forall|a: Seq<char>, b: Seq<char>| #[trigger] text_le_fn()(a, b) || #[trigger] text_le_fn()(b, a) by {
        lemma_text_le_total(a, b);
    }
}

/// `a <= b` for two texts.
pub fn text_le_exec(a: &str, b: &str) -> (r: bool)
    ensures
        r == text_le(a@, b@),
{
    let av = to_chars(a);
    let bv = to_chars(b);
    let mut i: usize = 0;
    assert(a@.skip(0) =~= a@);
    assert(b@.skip(0) =~= b@);
    while i < av.len() && i < bv.len() && av[i] == bv[i]
        invariant
            av@ == a@,
            bv@ == b@,
            i <= av@.len(),
            i <= bv@.len(),
            text_le(a@, b@) == text_le(a@.skip(i as int), b@.skip(i as int)),
        decreases av@.len() - i,
    {
        assert(a@.skip(i as int).drop_first() =~= a@.skip(i + 1));
        assert(b@.skip(i as int).drop_first() =~= b@.skip(i + 1));
        i = i + 1;
    }
    if i == av.len() {
        true
    } else if i == bv.len() {
        false
    } else {
        av[i] < bv[i]
    }
}

pub open spec fn texts_view(v: Seq<String>) -> Seq<Seq<char>> {
    v.map_values(|s: String| s@)
}

/// Sorts texts into lexicographic order, as `Vec<String>::sort` does.
pub fn sort_texts(v: &Vec<String>) -> (r: Vec<String>)
    ensures
        texts_view(r@) == texts_view(v@).sort_by(text_le_fn()),
{
    let mut out: Vec<String> = Vec::new();
    let mut i: usize = 0;
    proof {
        lemma_text_le_total_ordering();
        assert(texts_view(v@).subrange(0, 0).to_multiset() =~= texts_view(out@).to_multiset()) by {
            broadcast use vstd::seq_lib::group_to_multiset_ensures;
            assert(texts_view(v@).subrange(0, 0) =~= Seq::<Seq<char>>::empty());
            assert(texts_view(out@) =~= Seq::<Seq<char>>::empty());
        }
    }
    while i < v.len()
        invariant
            i <= v@.len(),
            total_ordering(text_le_fn()),
            sorted_by(texts_view(out@), text_le_fn()),
            texts_view(out@).to_multiset() == texts_view(v@).subrange(0, i as int).to_multiset(),
        decreases v@.len() - i,
    {
        let x = v[i].clone();
        let mut pos: usize = 0;
        while pos < out.len() && text_le_exec(out[pos].as_str(), x.as_str())
            invariant
                pos <= out@.len(),
                forall|j: int| 0 <= j < pos ==> text_le(#[trigger] out@[j]@, x@),
            decreases out@.len() - pos,
        {
            pos = pos + 1;
        }
        let ghost before = texts_view(out@);
        proof {
            assert forall|j: int| pos <= j < out@.len() implies text_le(x@, #[trigger] out@[j]@) by {
                if pos < out@.len() {
                    assert(!text_le(out@[pos as int]@, x@));
                    lemma_text_le_total(out@[pos as int]@, x@);
                    if j > pos {
                        assert(text_le_fn()(before[pos as int], before[j]));
                        lemma_text_le_transitive(x@, out@[pos as int]@, out@[j]@);
                    }
                }
            }
        }
        out.insert(pos, x);
        proof {
            assert(texts_view(out@) =~= before.insert(pos as int, x@));
            vstd::seq_lib::to_multiset_insert(before, pos as int, x@);
            let vs = texts_view(v@);
            assert(vs.subrange(0, i + 1) =~= vs.subrange(0, i as int).push(x@));
            vstd::seq_lib::to_multiset_insert(vs.subrange(0, i as int), i as int, x@);
            assert(vs.subrange(0, i as int).insert(i as int, x@) =~= vs.subrange(0, i as int).push(x@));
            let after = texts_view(out@);
            assert forall|a: int, b: int| 0 <= a < b < after.len() implies #[trigger] text_le_fn()(after[a], after[b]) by {
                if b < pos {
                    assert(text_le_fn()(before[a], before[b]));
                } else if b == pos {
                    assert(text_le(before[a], x@));
                } else if a < pos {
                    assert(text_le(before[a], x@));
                    assert(text_le(x@, before[b - 1]));
                    lemma_text_le_transitive(before[a], x@, before[b - 1]);
                } else if a == pos {
                    assert(text_le(x@, before[b - 1]));
                } else {
                    assert(text_le_fn()(before[a - 1], before[b - 1]));
                }
            }
        }
        i = i + 1;
    }
    proof {
        let vs = texts_view(v@);
        assert(vs.subrange(0, v@.len() as int) =~= vs);
        vs.lemma_sort_by_ensures(text_le_fn());
        vstd::seq_lib::lemma_sorted_unique(texts_view(out@), vs.sort_by(text_le_fn()), text_le_fn());
    }
    out
}

} // verus!
