use vstd::prelude::*;
use vstd::multiset::Multiset;
use crate::entry::Entry;
use crate::text::{
    is_substring, is_substring_at, lex_le, lemma_lex_le_total, lemma_lex_le_trans, lower_of,
    lowercase, starts_with_dot, str_contains, str_le,
};

verus! {

/// An entry passes the snapshot filter if it is not a hidden entry
/// being excluded, and its lowercased name contains the lowercased
/// search text; an empty search text keeps everything.
pub open spec fn entry_visible(e: Entry, show_hidden: bool, filter: Seq<char>) -> bool {
    &&& show_hidden || !(e.name@.len() > 0 && e.name@[0] == '.')
    &&& filter.len() == 0 || is_substring(lower_of(e.name@), lower_of(filter))
}

/// The entries stand in ascending lexicographic name order.
pub open spec fn sorted_by_name(s: Seq<Entry>) -> bool {
    forall|i: int, j: int| 0 <= i < j < s.len() ==> lex_le(s[i].name@, s[j].name@)
}

/// Whether one entry passes the filter; `lowered` is the search text
/// already lowercased once, so the loop over the listing does not
/// lowercase it again and again.
fn entry_passes(e: &Entry, show_hidden: bool, lowered: &str, Ghost(filter): Ghost<
    Seq<char>,
>) -> (r: bool)
    requires
        lowered@ == lower_of(filter),
        filter.len() == 0 ==> lowered@.len() == 0,
    ensures
        r == entry_visible(*e, show_hidden, filter),
{
    if !show_hidden && starts_with_dot(e.name.as_str()) {
        return false;
    }
    let lowered_name = lowercase(e.name.as_str());
    let r = str_contains(lowered_name.as_str(), lowered);
    proof {
        if filter.len() == 0 {
            assert(lower_of(filter).len() == 0);
            assert(lower_of(e.name@).subrange(0, 0) =~= lower_of(filter));
            assert(is_substring_at(lower_of(e.name@), lower_of(filter), 0));
        }
    }
    r
}

/// Places `e` into a name-sorted listing, keeping it sorted; the new
/// listing holds exactly the old entries plus `e`.
fn insert_sorted(out: &mut Vec<Entry>, e: Entry)
    requires
        sorted_by_name(old(out)@),
    ensures
        sorted_by_name(final(out)@),
        final(out)@.to_multiset() == old(out)@.to_multiset().insert(e),
        final(out)@.len() == old(out)@.len() + 1,
{
    let n = out.len();
    let mut pos: usize = 0;
    while pos < n && str_le(out[pos].name.as_str(), e.name.as_str())
        invariant
            out@ == old(out)@,
            n == out@.len(),
            pos <= n,
            forall|k: int| 0 <= k < pos ==> lex_le(out@[k].name@, e.name@),
        decreases n - pos,
    {
        pos = pos + 1;
    }
    proof {
        assert forall|k: int| pos <= k < n implies lex_le(e.name@, out@[k].name@) by {
            lemma_lex_le_total(e.name@, out@[pos as int].name@);
            if k > pos {
                lemma_lex_le_trans(e.name@, out@[pos as int].name@, out@[k].name@);
            }
        }
    }
    let ghost before = out@;
    out.insert(pos, e);
    proof {
        before.insert_ensures(pos as int, e);
        vstd::seq_lib::to_multiset_insert(before, pos as int, e);
        assert forall|i: int, j: int|
            0 <= i < j < out@.len() implies lex_le(out@[i].name@, out@[j].name@) by {
            if j < pos {
            } else if i < pos && j == pos {
            } else if i < pos && j > pos {
            } else if i == pos {
            } else {
            }
        }
    }
}

/// `filter` keeps a sequence unchanged when every element passes it.
proof fn lemma_filter_all(s: Seq<Entry>, pred: spec_fn(Entry) -> bool)
    requires
        forall|e: Entry| #[trigger] pred(e),
    ensures
        s.filter(pred) == s,
    decreases s.len(),
{
    reveal(Seq::filter);
    if s.len() > 0 {
        lemma_filter_all(s.drop_last(), pred);
    }
}

/// Builds the snapshot shown to the user from a raw directory listing:
/// exactly the entries that pass the hidden-file and search filters,
/// in ascending name order. With the search text empty and hidden
/// entries shown, the snapshot holds exactly the raw listing.
#[verifier::loop_isolation(false)]
pub fn build_snapshot(raw: Vec<Entry>, show_hidden: bool, filter: &str) -> (out: Vec<Entry>)
    ensures
        sorted_by_name(out@),
        out@.to_multiset() == raw@.filter(
            |e: Entry| entry_visible(e, show_hidden, filter@),
        ).to_multiset(),
        show_hidden && filter@.len() == 0 ==> out@.to_multiset() == raw@.to_multiset(),
{
    let ghost pred = |e: Entry| entry_visible(e, show_hidden, filter@);
    let lowered = lowercase(filter);
    let mut rest = raw;
    let mut out: Vec<Entry> = Vec::new();
    proof {
        broadcast use vstd::multiset::group_multiset_axioms;

        out@.to_multiset_ensures();
        assert(out@.to_multiset().add(rest@.filter(pred).to_multiset()) =~= raw@.filter(
            pred,
        ).to_multiset());
    }
    while rest.len() > 0
        invariant
            sorted_by_name(out@),
            out@.to_multiset().add(rest@.filter(pred).to_multiset()) == raw@.filter(
                pred,
            ).to_multiset(),
        decreases rest@.len(),
    {
        let ghost rest_before = rest@;
        let ghost out_before = out@;
        let e = rest.pop().unwrap();
        proof {
            reveal(Seq::filter);
            assert(rest@ == rest_before.drop_last());
            assert(e == rest_before.last());
        }
        if entry_passes(&e, show_hidden, lowered.as_str(), Ghost(filter@)) {
            insert_sorted(&mut out, e);
        }
        proof {
            broadcast use vstd::multiset::group_multiset_axioms;

            reveal(Seq::filter);
            rest@.filter(pred).to_multiset_ensures();
            if pred(e) {
                assert(rest_before.filter(pred) == rest@.filter(pred).push(e));
                assert(rest_before.filter(pred).to_multiset() =~= rest@.filter(
                    pred,
                ).to_multiset().insert(e));
                assert(out@.to_multiset().add(rest@.filter(pred).to_multiset())
                    =~= out_before.to_multiset().add(rest_before.filter(pred).to_multiset()));
            } else {
                assert(rest_before.filter(pred) == rest@.filter(pred));
            }
        }
    }
    proof {
        broadcast use vstd::multiset::group_multiset_axioms;

        reveal(Seq::filter);
        assert(rest@ =~= Seq::<Entry>::empty());
        assert(rest@.filter(pred).to_multiset() =~= Multiset::<Entry>::empty());
        assert(out@.to_multiset() =~= out@.to_multiset().add(rest@.filter(pred).to_multiset()));
        if show_hidden && filter@.len() == 0 {
            assert forall|e: Entry| #[trigger] pred(e) by {}
            lemma_filter_all(raw@, pred);
        }
    }
    out
}

} // verus!
