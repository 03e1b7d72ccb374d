//! Laws the registry obeys across several operations, stated over the
//! same models its contracts use.

use vstd::prelude::*;

use crate::ann::{elements_of_blob, graph_size, search_of, unit_of};
use crate::registry::EntryModel;

verus! {

/// The element collection a fresh entry holds after accumulating a run of
/// vectors, in order: each stored as the indexing algorithm stores it.
pub open spec fn elements_after(vs: Seq<Seq<u32>>) -> Seq<Seq<u32>> {
    vs.map_values(|v: Seq<u32>| unit_of(v))
}

/// Additive counting: when a fresh entry accumulates vectors one by one,
/// the element count reported for the i-th of them (zero-based) is
/// exactly i + 1 — a run of N additions reports 1, 2, ..., N. This is the
/// count `granne_add` ensures, since the entry's collection after the
/// first i additions is `elements_after` of the first i vectors.
pub proof fn lemma_additive_counting(vs: Seq<Seq<u32>>, i: int)
    requires
        0 <= i < vs.len(),
    ensures
        elements_after(vs.take(i)).len() + 1 == i + 1,
        elements_after(vs.take(i + 1)) == elements_after(vs.take(i)).push(unit_of(vs[i])),
{
    assert(elements_after(vs.take(i)).len() == i);
    assert(elements_after(vs.take(i + 1)) =~= elements_after(vs.take(i)).push(unit_of(vs[i])));
}

/// Round trip: an entry rebuilt from the two streams `granne_save`
/// produced answers every search exactly as the saved entry does. The
/// loaded entry's model is the decoded elements and the saved graph, and
/// search results are a function of graph, elements, query and counts
/// alone.
pub proof fn lemma_round_trip(
    m: EntryModel,
    ib: Seq<u8>,
    eb: Seq<u8>,
    q: Seq<u32>,
    width: nat,
    k: nat,
)
    requires
        ib == m.graph,
        elements_of_blob(eb) == m.elements,
    ensures
        search_of(ib, elements_of_blob(eb).take(graph_size(ib) as int), q, width, k) == search_of(
            m.graph,
            m.elements.take(graph_size(m.graph) as int),
            q,
            width,
            k,
        ),
{
}

} // verus!
