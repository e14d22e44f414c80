//! What holds of filtering a whole input, proved over the specification of
//! `Fdns::filter_lines`.

use crate::fdns::{filtered, Filter};
use crate::record::{parsed, EntryModel};
use vstd::multiset::group_multiset_axioms;
use vstd::prelude::*;
use vstd::seq_lib::{group_to_multiset_ensures, lemma_multiset_commutative};

verus! {

/// Filtering two runs of lines one after the other gives the records of the
/// first run followed by those of the second.
pub proof fn lemma_filtered_concat(f: Filter, a: Seq<Seq<char>>, b: Seq<Seq<char>>)
    ensures
        filtered(f, a + b) == filtered(f, a) + filtered(f, b),
    decreases b.len(),
{
    if b.len() == 0 {
        assert(a + b =~= a);
        assert(filtered(f, a) + filtered(f, b) =~= filtered(f, a));
    } else {
        lemma_filtered_concat(f, a, b.drop_last());
        assert((a + b).drop_last() =~= a + b.drop_last());
        assert((a + b).last() == b.last());
        let rest = filtered(f, b.drop_last());
        match parsed(b.last()) {
            Some(e) => {
                assert(filtered(f, a) + rest.push(e) =~= (filtered(f, a) + rest).push(e));
            },
            None => {},
        }
    }
}

/// An input with no lines yields no records.
pub proof fn lemma_empty_input(f: Filter)
    ensures
        filtered(f, Seq::<Seq<char>>::empty()) == Seq::<EntryModel>::empty(),
{
}

/// A line that does not decode to a record contributes nothing, wherever it
/// stands, and the lines after it are filtered as if it were absent.
pub proof fn lemma_unparsable_line_skipped(
    f: Filter,
    before: Seq<Seq<char>>,
    bad: Seq<char>,
    after: Seq<Seq<char>>,
)
    requires
        parsed(bad) is None,
    ensures
        filtered(f, before + seq![bad] + after) == filtered(f, before + after),
{
    lemma_filtered_concat(f, before + seq![bad], after);
    lemma_filtered_concat(f, before, seq![bad]);
    lemma_filtered_concat(f, before, after);
    assert(seq![bad].drop_last() =~= Seq::<Seq<char>>::empty());
    assert(seq![bad].last() == bad);
    lemma_empty_input(f);
    assert(filtered(f, seq![bad]) =~= Seq::<EntryModel>::empty());
    assert(filtered(f, before) + filtered(f, seq![bad]) =~= filtered(f, before));
}

/// Filtering input split into batches, each filtered on its own and the
/// results joined in batch order, gives what filtering the whole input gives.
pub proof fn lemma_filtered_batches(f: Filter, batches: Seq<Seq<Seq<char>>>)
    ensures
        filtered(f, batches.flatten()) == batches.map_values(
            |b: Seq<Seq<char>>| filtered(f, b),
        ).flatten(),
    decreases batches.len(),
{
    if batches.len() == 0 {
    } else {
        lemma_filtered_batches(f, batches.drop_first());
        lemma_filtered_concat(f, batches.first(), batches.drop_first().flatten());
        assert(batches.map_values(|b: Seq<Seq<char>>| filtered(f, b)).drop_first()
            =~= batches.drop_first().map_values(|b: Seq<Seq<char>>| filtered(f, b)));
    }
}

/// The records kept from an input depend only on which lines it holds and
/// how often, not on their order: two inputs with the same lines in any order
/// yield the same multiset of records.
pub proof fn lemma_filtered_order_independent(f: Filter, a: Seq<Seq<char>>, b: Seq<Seq<char>>)
    requires
        a.to_multiset() == b.to_multiset(),
    ensures
        filtered(f, a).to_multiset() == filtered(f, b).to_multiset(),
    decreases a.len(),
{
    broadcast use group_to_multiset_ensures, group_multiset_axioms, lemma_multiset_commutative;

    if a.len() == 0 {
        assert(a.to_multiset().len() == 0);
        assert(b.to_multiset().len() == 0);
        assert(b =~= a);
    } else {
        let x = a.last();
        let a0 = a.drop_last();
        assert(a0.push(x) =~= a);
        assert(a.to_multiset().count(x) > 0);
        assert(b.contains(x));
        let i = choose|i: int| 0 <= i < b.len() && b[i] == x;
        let b0 = b.remove(i);
        assert(a0.to_multiset() =~= a.to_multiset().remove(x));
        assert(b0.to_multiset() == b.to_multiset().remove(x));
        lemma_filtered_order_independent(f, a0, b0);
        let left = b.take(i);
        let right = b.skip(i + 1);
        assert(b =~= left + seq![x] + right);
        assert(b0 =~= left + right);
        assert(a =~= a0 + seq![x]);
        lemma_filtered_concat(f, a0, seq![x]);
        lemma_filtered_concat(f, left + seq![x], right);
        lemma_filtered_concat(f, left, seq![x]);
        lemma_filtered_concat(f, left, right);
        let fl = filtered(f, left).to_multiset();
        let fr = filtered(f, right).to_multiset();
        let fx = filtered(f, seq![x]).to_multiset();
        assert(filtered(f, b).to_multiset() =~= fl.add(fx).add(fr));
        assert(filtered(f, b0).to_multiset() =~= fl.add(fr));
        assert(filtered(f, a).to_multiset() =~= filtered(f, a0).to_multiset().add(fx));
    }
}

} // verus!
