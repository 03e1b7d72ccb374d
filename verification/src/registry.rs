//! A name-addressable registry of nearest-neighbor index builders. Each
//! name owns at most one entry; creating or loading under a taken name
//! discards the prior entry wholesale. Unknown names are silent: adding
//! reports a count of zero, building does nothing, searching answers with
//! an empty list.

use vstd::prelude::*;
use vstd::map::*;

use crate::ann::{
    builder_build, builder_dim, builder_elements, builder_from_blobs, builder_get_element,
    builder_graph, builder_indexed_len, builder_new, builder_num_elements, builder_push,
    builder_search, builder_width, builder_write_elements, builder_write_index, elements_blob_ok,
    elements_of_blob, graph_size, index_blob_ok, results_view, search_of, unit_of, AnnBuilder,
    SearchResult,
};
use crate::bits::{check_vec_finite, vec_finite};

verus! {

/// The beam width granne explores on every search; fixed here rather than
/// exposed to callers.
pub const SEARCH_WIDTH: usize = 100;

/// The abstract state of one entry: the vectors accumulated so far, in
/// push order and as stored, and the serialized form of the search graph
/// compiled at the last build.
pub struct EntryModel {
    pub elements: Seq<Seq<u32>>,
    pub graph: Seq<u8>,
}

/// The dimension an element collection commits its entries to.
pub open spec fn width_of(es: Seq<Seq<u32>>) -> nat {
    if es.len() == 0 {
        0
    } else {
        es[0].len()
    }
}

/// Every accumulated vector has only finite components.
pub open spec fn all_finite(es: Seq<Seq<u32>>) -> bool {
    forall|i: int| 0 <= i < es.len() ==> vec_finite(#[trigger] es[i])
}

/// A pair of serialized streams that decodes to a self-consistent,
/// searchable entry: the graph indexes no more elements than the stream
/// holds, there is at least one element, and all components are finite.
pub open spec fn blob_entry_ok(ib: Seq<u8>, eb: Seq<u8>) -> bool {
    &&& graph_size(ib) <= elements_of_blob(eb).len()
    &&& elements_of_blob(eb).len() >= 1
    &&& all_finite(elements_of_blob(eb))
}

struct Slot {
    name: String,
    builder: AnnBuilder,
}

/// The registry: a mapping from names to index entries.
pub struct Registry {
    entries: Vec<Slot>,
}

spec fn slot_model(s: Slot) -> EntryModel {
    EntryModel { elements: builder_elements(s.builder), graph: builder_graph(s.builder) }
}

spec fn slot_wf(s: Slot) -> bool {
    &&& all_finite(builder_elements(s.builder))
    &&& graph_size(builder_graph(s.builder)) <= builder_elements(s.builder).len()
    &&& index_blob_ok(builder_graph(s.builder))
    &&& builder_width(s.builder) == width_of(builder_elements(s.builder))
    &&& builder_elements(s.builder).len() < 0xffff_ffff
}

spec fn unique_names(ss: Seq<Slot>) -> bool {
    forall|i: int, j: int| 0 <= i < j < ss.len() ==> ss[i].name@ != ss[j].name@
}

spec fn has_name(ss: Seq<Slot>, n: Seq<char>) -> bool {
    exists|i: int| 0 <= i < ss.len() && ss[i].name@ == n
}

spec fn idx_of(ss: Seq<Slot>, n: Seq<char>) -> int {
    choose|i: int| 0 <= i < ss.len() && ss[i].name@ == n
}

spec fn view_of(ss: Seq<Slot>) -> Map<Seq<char>, EntryModel> {
    Map::new(|n: Seq<char>| has_name(ss, n), |n: Seq<char>| slot_model(ss[idx_of(ss, n)]))
}

impl View for Registry {
    type V = Map<Seq<char>, EntryModel>;

    closed spec fn view(&self) -> Map<Seq<char>, EntryModel> {
        view_of(self.entries@)
    }
}

impl Registry {
    /// The registry's internal invariant: names are unique and every
    /// entry is self-consistent and searchable.
    pub closed spec fn wf(&self) -> bool {
        &&& unique_names(self.entries@)
        &&& forall|i: int| 0 <= i < self.entries@.len() ==> slot_wf(#[trigger] self.entries@[i])
    }

    /// An empty registry: no name is known.
    pub fn new() -> (r: Registry)
        ensures
            r.wf(),
            r@ == Map::<Seq<char>, EntryModel>::empty(),
    {
        let r = Registry { entries: Vec::new() };
        proof {
            assert_maps_equal!(view_of(r.entries@), Map::<Seq<char>, EntryModel>::empty());
        }
        r
    }
}

proof fn lemma_idx_of_unique(ss: Seq<Slot>, i: int)
    requires
        unique_names(ss),
        0 <= i < ss.len(),
    ensures
        idx_of(ss, ss[i].name@) == i,
{
    let n = ss[i].name@;
    assert(has_name(ss, n));
    let j = idx_of(ss, n);
    assert(0 <= j < ss.len() && ss[j].name@ == n);
    if i < j {
        assert(ss[i].name@ != ss[j].name@);
    } else if j < i {
        assert(ss[j].name@ != ss[i].name@);
    }
}

/// Overwriting the slot that already carries a name updates the view at
/// that name alone.
proof fn lemma_view_update(pre: Seq<Slot>, post: Seq<Slot>, i: int)
    requires
        unique_names(pre),
        0 <= i < pre.len(),
        post == pre.update(i, post[i]),
        post.len() == pre.len(),
        post[i].name@ == pre[i].name@,
    ensures
        unique_names(post),
        view_of(post) == view_of(pre).insert(pre[i].name@, slot_model(post[i])),
{
    let n = pre[i].name@;
    assert forall|a: int, b: int| 0 <= a < b < post.len() implies post[a].name@
        != post[b].name@ by {
        assert(pre[a].name@ != pre[b].name@);
    }
    assert forall|x: Seq<char>| has_name(post, x) implies has_name(pre, x) by {
        let a = choose|a: int| 0 <= a < post.len() && post[a].name@ == x;
        assert(pre[a].name@ == x);
    }
    assert forall|x: Seq<char>| has_name(pre, x) implies has_name(post, x) by {
        let a = choose|a: int| 0 <= a < pre.len() && pre[a].name@ == x;
        assert(post[a].name@ == x);
    }
    assert forall|x: Seq<char>| has_name(post, x) implies view_of(post)[x] == view_of(pre).insert(
        n,
        slot_model(post[i]),
    )[x] by {
        let a = idx_of(post, x);
        assert(0 <= a < post.len() && post[a].name@ == x);
        lemma_idx_of_unique(post, a);
        lemma_idx_of_unique(pre, a);
        if x == n {
            lemma_idx_of_unique(post, i);
            assert(a == i);
        }
    }
    assert_maps_equal!(view_of(post), view_of(pre).insert(n, slot_model(post[i])));
}

/// Appending a slot under a fresh name extends the view by that name.
proof fn lemma_view_push(pre: Seq<Slot>, s: Slot)
    requires
        unique_names(pre),
        !has_name(pre, s.name@),
    ensures
        unique_names(pre.push(s)),
        view_of(pre.push(s)) == view_of(pre).insert(s.name@, slot_model(s)),
{
    let post = pre.push(s);
    assert forall|a: int, b: int| 0 <= a < b < post.len() implies post[a].name@
        != post[b].name@ by {
        if b < pre.len() {
            assert(pre[a].name@ != pre[b].name@);
        } else {
            assert(post[b] == s);
            assert(pre[a].name@ == post[a].name@);
        }
    }
    assert(post[pre.len() as int] == s);
    assert(has_name(post, s.name@));
    assert_maps_equal!(view_of(post), view_of(pre).insert(s.name@, slot_model(s)), x => {
        if has_name(post, x) {
            let a = idx_of(post, x);
            assert(0 <= a < post.len() && post[a].name@ == x);
            lemma_idx_of_unique(post, a);
            if x == s.name@ {
                lemma_idx_of_unique(post, pre.len() as int);
                assert(a == pre.len() as int);
            } else {
                assert(a != pre.len() as int);
                assert(post[a] == pre[a]);
                lemma_idx_of_unique(pre, a);
                assert(pre[a].name@ == x);
                assert(has_name(pre, x));
                assert(view_of(pre)[x] == slot_model(pre[idx_of(pre, x)]));
            }
        }
        if has_name(pre, x) {
            let a = choose|a: int| 0 <= a < pre.len() && pre[a].name@ == x;
            assert(post[a].name@ == x);
            assert(has_name(post, x));
        }
    });
}

impl Registry {
    /// Finds the slot that carries a name.
    fn find(&self, name: &str) -> (r: Option<usize>)
        requires
            self.wf(),
        ensures
            match r {
                Some(i) => i < self.entries@.len() && self.entries@[i as int].name@ == name@
                    && idx_of(self.entries@, name@) == i as int,
                None => !has_name(self.entries@, name@),
            },
    {
        let key: String = name.to_owned();
        let mut i: usize = 0;
        while i < self.entries.len()
            invariant
                self.wf(),
                i <= self.entries@.len(),
                key@ == name@,
                forall|j: int| 0 <= j < i ==> self.entries@[j].name@ != name@,
            decreases self.entries@.len() - i,
        {
            if self.entries[i].name == key {
                proof {
                    lemma_idx_of_unique(self.entries@, i as int);
                }
                return Some(i);
            }
            i = i + 1;
        }
        None
    }
}

/// Installs a fresh, empty entry under `name`, discarding any prior entry
/// held there. Creation always succeeds; no other name is touched.
pub fn granne_new_index(reg: &mut Registry, name: &str)
    requires
        old(reg).wf(),
    ensures
        final(reg).wf(),
        final(reg)@.dom().contains(name@),
        final(reg)@[name@].elements == Seq::<Seq<u32>>::empty(),
        graph_size(final(reg)@[name@].graph) == 0,
        forall|n: Seq<char>|
            (#[trigger] final(reg)@.dom().contains(n)) <==> (old(reg)@.dom().contains(n) || n
                == name@),
        forall|n: Seq<char>|
            n != name@ && old(reg)@.dom().contains(n) ==> (#[trigger] final(reg)@[n]) == old(
                reg,
            )@[n],
{
    let b = builder_new();
    let slot = Slot { name: name.to_owned(), builder: b };
    proof {
        assert(slot_wf(slot));
    }
    install(reg, slot);
}

/// Replaces or appends the slot carrying `slot.name`, leaving every other
/// name untouched.
fn install(reg: &mut Registry, slot: Slot)
    requires
        old(reg).wf(),
        slot_wf(slot),
    ensures
        final(reg).wf(),
        final(reg)@ == old(reg)@.insert(slot.name@, slot_model(slot)),
{
    let ghost pre = reg.entries@;
    match reg.find(&slot.name.as_str()) {
        Some(i) => {
            reg.entries[i] = slot;
            proof {
                lemma_view_update(pre, reg.entries@, i as int);
                assert forall|j: int| 0 <= j < reg.entries@.len() implies slot_wf(
                    #[trigger] reg.entries@[j],
                ) by {
                    if j != i as int {
                        assert(reg.entries@[j] == pre[j]);
                    }
                }
            }
        },
        None => {
            reg.entries.push(slot);
            proof {
                lemma_view_push(pre, reg.entries@[pre.len() as int]);
                assert forall|j: int| 0 <= j < reg.entries@.len() implies slot_wf(
                    #[trigger] reg.entries@[j],
                ) by {
                    if j < pre.len() {
                        assert(reg.entries@[j] == pre[j]);
                    }
                }
            }
        },
    }
}

/// The dimension the named entry's vectors are committed to: the length
/// of its first accumulated vector, or zero when the entry is empty or
/// the name is unknown. A vector handed to `granne_add` must have this
/// length unless the entry is empty.
pub fn granne_dimension(reg: &Registry, name: &str) -> (d: usize)
    requires
        reg.wf(),
    ensures
        !reg@.dom().contains(name@) ==> d == 0,
        reg@.dom().contains(name@) ==> d == width_of(reg@[name@].elements),
{
    match reg.find(name) {
        None => 0,
        Some(i) => {
            proof {
                assert(slot_wf(reg.entries@[i as int]));
                assert(view_of(reg.entries@)[name@] == slot_model(reg.entries@[i as int]));
            }
            builder_dim(&reg.entries[i].builder)
        },
    }
}

/// The number of vectors the named entry has accumulated so far; zero
/// when the name is unknown.
pub fn granne_element_count(reg: &Registry, name: &str) -> (c: usize)
    requires
        reg.wf(),
    ensures
        !reg@.dom().contains(name@) ==> c == 0,
        reg@.dom().contains(name@) ==> c == reg@[name@].elements.len(),
{
    match reg.find(name) {
        None => 0,
        Some(i) => {
            proof {
                assert(view_of(reg.entries@)[name@] == slot_model(reg.entries@[i as int]));
            }
            builder_num_elements(&reg.entries[i].builder)
        },
    }
}

/// Appends a vector to the named entry and reports the entry's new element
/// count; an unknown name mutates nothing and reports zero. The count is
/// one-based, so a run of pushes into a fresh entry reports 1, 2, 3, ...
/// The vector must be non-empty, finite in every component, and of the
/// entry's dimension; the indexing algorithm faults on anything else.
pub fn granne_add(reg: &mut Registry, name: &str, v: &Vec<u32>) -> (count: usize)
    requires
        old(reg).wf(),
        old(reg)@.dom().contains(name@) ==> v@.len() >= 1 && vec_finite(v@) && (old(
            reg,
        )@[name@].elements.len() == 0 || v@.len() == old(reg)@[name@].elements[0].len()) && old(
            reg,
        )@[name@].elements.len() < 0xffff_fffe,
    ensures
        final(reg).wf(),
        !old(reg)@.dom().contains(name@) ==> final(reg)@ == old(reg)@ && count == 0,
        old(reg)@.dom().contains(name@) ==> count == old(reg)@[name@].elements.len() + 1,
        old(reg)@.dom().contains(name@) ==> final(reg)@[name@].elements == old(
            reg,
        )@[name@].elements.push(unit_of(v@)),
        old(reg)@.dom().contains(name@) ==> final(reg)@[name@].elements.last().len() == v@.len(),
        old(reg)@.dom().contains(name@) ==> final(reg)@[name@].graph == old(reg)@[name@].graph,
        forall|n: Seq<char>|
            (#[trigger] final(reg)@.dom().contains(n)) <==> old(reg)@.dom().contains(n),
        forall|n: Seq<char>|
            n != name@ && old(reg)@.dom().contains(n) ==> (#[trigger] final(reg)@[n]) == old(
                reg,
            )@[n],
{
    let ghost pre = reg.entries@;
    match reg.find(name) {
        None => 0,
        Some(i) => {
            proof {
                assert(slot_wf(pre[i as int]));
                assert(view_of(pre)[name@] == slot_model(pre[i as int]));
            }
            builder_push(&mut reg.entries[i].builder, v);
            let count = builder_num_elements(&reg.entries[i].builder);
            proof {
                assert(reg.entries@ == pre.update(i as int, reg.entries@[i as int]));
                lemma_view_update(pre, reg.entries@, i as int);
                assert(slot_wf(reg.entries@[i as int]));
                assert forall|j: int| 0 <= j < reg.entries@.len() implies slot_wf(
                    #[trigger] reg.entries@[j],
                ) by {
                    if j != i as int {
                        assert(reg.entries@[j] == pre[j]);
                    }
                }
            }
            count
        },
    }
}

/// Compiles the named entry's accumulated vectors into a fresh search
/// graph; an unknown name does nothing, silently. After a build, the graph
/// covers exactly the vectors accumulated so far.
pub fn granne_build(reg: &mut Registry, name: &str)
    requires
        old(reg).wf(),
    ensures
        final(reg).wf(),
        !old(reg)@.dom().contains(name@) ==> final(reg)@ == old(reg)@,
        old(reg)@.dom().contains(name@) ==> final(reg)@[name@].elements == old(
            reg,
        )@[name@].elements,
        old(reg)@.dom().contains(name@) ==> graph_size(final(reg)@[name@].graph) == old(
            reg,
        )@[name@].elements.len(),
        forall|n: Seq<char>|
            (#[trigger] final(reg)@.dom().contains(n)) <==> old(reg)@.dom().contains(n),
        forall|n: Seq<char>|
            n != name@ && old(reg)@.dom().contains(n) ==> (#[trigger] final(reg)@[n]) == old(
                reg,
            )@[n],
{
    let ghost pre = reg.entries@;
    match reg.find(name) {
        None => {},
        Some(i) => {
            proof {
                assert(slot_wf(pre[i as int]));
            }
            builder_build(&mut reg.entries[i].builder);
            proof {
                assert(reg.entries@ == pre.update(i as int, reg.entries@[i as int]));
                lemma_view_update(pre, reg.entries@, i as int);
                assert forall|j: int| 0 <= j < reg.entries@.len() implies slot_wf(
                    #[trigger] reg.entries@[j],
                ) by {
                    if j != i as int {
                        assert(reg.entries@[j] == pre[j]);
                    }
                }
            }
        },
    }
}

/// Searches the named entry's last-built graph for the `k` results granne
/// ranks closest to the query, in granne's order of decreasing relevance.
/// The search view reflects only the state at the last build: results are
/// a function of the graph and of the vectors it indexes, so vectors
/// pushed since the last build change nothing until the next build. The
/// result ids are insertion positions of the built vectors: each is
/// below the built count, and no id repeats. An unknown name, or an entry
/// never built, answers with an empty list — never a fault.
pub fn granne_search(reg: &Registry, name: &str, k: usize, q: &Vec<u32>) -> (r: Vec<SearchResult>)
    requires
        reg.wf(),
        reg@.dom().contains(name@) ==> q@.len() >= 1 && vec_finite(q@),
    ensures
        !reg@.dom().contains(name@) ==> r@.len() == 0,
        reg@.dom().contains(name@) ==> results_view(r@) == search_of(
            reg@[name@].graph,
            reg@[name@].elements.take(graph_size(reg@[name@].graph) as int),
            q@,
            SEARCH_WIDTH as nat,
            k as nat,
        ),
        r@.len() <= k,
        reg@.dom().contains(name@) ==> r@.len() <= graph_size(reg@[name@].graph),
        reg@.dom().contains(name@) ==> forall|i: int|
            0 <= i < r@.len() ==> (#[trigger] r@[i]).index < graph_size(reg@[name@].graph),
        forall|i: int, j: int| 0 <= i < j < r@.len() ==> r@[i].index != r@[j].index,
        reg@.dom().contains(name@) && graph_size(reg@[name@].graph) == 0 ==> r@.len() == 0,
{
    match reg.find(name) {
        None => Vec::new(),
        Some(i) => {
            proof {
                assert(slot_wf(reg.entries@[i as int]));
                assert(view_of(reg.entries@)[name@] == slot_model(reg.entries@[i as int]));
            }
            builder_search(&reg.entries[i].builder, q, SEARCH_WIDTH, k)
        },
    }
}

/// The outcome of serializing an entry: the name was unknown, or the two
/// streams (the index structure, then the elements) were produced.
/// Serialization itself cannot fail: both writers run against in-memory
/// buffers.
pub enum SaveOutcome {
    NotFound,
    Saved(Vec<u8>, Vec<u8>),
}

/// Serializes the named entry into an index stream and an elements
/// stream. For an entry holding at least one vector, the streams are
/// exactly what `granne_load` rebuilds the entry from: the index stream
/// is the entry's graph in its canonical byte form, and the elements
/// stream decodes back to the accumulated vectors. The elements stream
/// of an empty entry is rejected by granne's reader.
pub fn granne_save(reg: &Registry, name: &str) -> (r: SaveOutcome)
    requires
        reg.wf(),
    ensures
        (r is NotFound) <==> !reg@.dom().contains(name@),
        reg@.dom().contains(name@) ==> r is Saved,
        r matches SaveOutcome::Saved(ib, eb) ==> ib@ == reg@[name@].graph && index_blob_ok(ib@),
        r matches SaveOutcome::Saved(ib, eb) ==> (reg@[name@].elements.len() >= 1
            ==> elements_of_blob(eb@) == reg@[name@].elements && elements_blob_ok(eb@)
            && blob_entry_ok(ib@, eb@)),
{
    match reg.find(name) {
        None => SaveOutcome::NotFound,
        Some(i) => {
            proof {
                assert(slot_wf(reg.entries@[i as int]));
                assert(view_of(reg.entries@)[name@] == slot_model(reg.entries@[i as int]));
            }
            let ib = builder_write_index(&reg.entries[i].builder);
            let eb = builder_write_elements(&reg.entries[i].builder);
            SaveOutcome::Saved(ib, eb)
        },
    }
}

/// Rebuilds an entry from two streams that granne's writers produced and
/// installs it under `name`, replacing any prior entry there. The entry
/// is installed only after the whole reconstruction is checked to be
/// self-consistent and searchable; on rejection the registry is exactly
/// as before. Streams of a non-empty, self-consistent entry are never
/// rejected.
pub fn granne_load(reg: &mut Registry, name: &str, ib: &Vec<u8>, eb: &Vec<u8>) -> (r: bool)
    requires
        old(reg).wf(),
        index_blob_ok(ib@),
        elements_blob_ok(eb@),
        elements_of_blob(eb@).len() < 0xffff_ffff,
    ensures
        final(reg).wf(),
        !r ==> final(reg)@ == old(reg)@,
        r ==> final(reg)@ == old(reg)@.insert(
            name@,
            (EntryModel { elements: elements_of_blob(eb@), graph: ib@ }),
        ),
        blob_entry_ok(ib@, eb@) ==> r,
{
    let nb = builder_from_blobs(ib, eb);
    let n = builder_num_elements(&nb);
    let g = builder_indexed_len(&nb);
    if g > n {
        return false;
    }
    let d = builder_dim(&nb);
    if n == 0 {
        if d != 0 {
            return false;
        }
    } else {
        let e0 = builder_get_element(&nb, 0);
        if e0.len() != d {
            return false;
        }
    }
    let mut i: usize = 0;
    while i < n
        invariant
            *reg == *old(reg),
            old(reg).wf(),
            builder_elements(nb) == elements_of_blob(eb@),
            n == builder_elements(nb).len(),
            i <= n,
            forall|j: int| 0 <= j < i ==> vec_finite(#[trigger] builder_elements(nb)[j]),
        decreases n - i,
    {
        let e = builder_get_element(&nb, i);
        if !check_vec_finite(&e) {
            proof {
                assert(!vec_finite(builder_elements(nb)[i as int]));
            }
            return false;
        }
        i = i + 1;
    }
    let slot = Slot { name: name.to_owned(), builder: nb };
    proof {
        assert(slot_wf(slot));
    }
    install(reg, slot);
    true
}

/// Duplicates the entry held under `from` into a new entry under `to`, by
/// serializing it and rebuilding from the streams. An unknown or empty
/// source is refused, since its streams cannot be rebuilt from; every
/// source holding at least one vector is copied. On refusal the registry
/// is exactly as before.
pub fn granne_clone_index(reg: &mut Registry, from: &str, to: &str) -> (r: bool)
    requires
        old(reg).wf(),
    ensures
        final(reg).wf(),
        !r ==> final(reg)@ == old(reg)@,
        r ==> old(reg)@.dom().contains(from@) && final(reg)@ == old(reg)@.insert(
            to@,
            (EntryModel {
                elements: old(reg)@[from@].elements,
                graph: old(reg)@[from@].graph,
            }),
        ),
        old(reg)@.dom().contains(from@) && old(reg)@[from@].elements.len() >= 1 ==> r,
{
    if granne_element_count(reg, from) == 0 {
        return false;
    }
    proof {
        let i = idx_of(reg.entries@, from@);
        assert(0 <= i < reg.entries@.len() && reg.entries@[i].name@ == from@);
        assert(slot_wf(reg.entries@[i]));
        assert(view_of(reg.entries@)[from@] == slot_model(reg.entries@[i]));
    }
    match granne_save(reg, from) {
        SaveOutcome::Saved(ib, eb) => granne_load(reg, to, &ib, &eb),
        SaveOutcome::NotFound => false,
    }
}

} // verus!
