//! The trusted boundary to the `granne` crate, which supplies the
//! approximate-nearest-neighbor algorithm itself (graph construction, beam
//! search, distance computation) and the on-disk encoding of indexes and
//! element collections. Everything the registry knows about a builder is
//! stated here, over abstract names for the builder's element collection,
//! its compiled search graph, and the serialized forms of both.
//!
//! Vectors cross this boundary as sequences of 32-bit IEEE 754 bit
//! patterns; the conversions to and from the crate's single-precision
//! vectors happen inside the trusted bodies.

use vstd::prelude::*;

use crate::bits::vec_finite;
use granne::{Builder, Index};

verus! {

/// One nearest-neighbor index builder: an accumulator of vectors plus the
/// search graph compiled from them at the last build. The underlying
/// collection is granne's; Verus sees it only through the names and
/// wrappers below.
#[verifier::external_body]
pub struct AnnBuilder {
    inner: granne::GranneBuilder<granne::angular::Vectors<'static>>,
}

/// A result returned by a search: the zero-based insertion order of the
/// matched vector within its index, and the bit pattern of the
/// single-precision relevance score granne computed for it.
#[derive(Clone, Copy, Debug)]
pub struct SearchResult {
    pub index: usize,
    pub score_bits: u32,
}

/// The plain view of a result list: insertion order and score bits.
pub open spec fn results_view(s: Seq<SearchResult>) -> Seq<(nat, u32)> {
    s.map_values(|sr: SearchResult| (sr.index as nat, sr.score_bits))
}

/// What angular::Vector::from stores for the given components: the
/// normalization of the vector (the vector itself when its norm is not
/// positive). A pure function of the components.
pub uninterp spec fn unit_of(v: Seq<u32>) -> Seq<u32>;

/// The vectors accumulated in a builder, in push order, as stored.
pub uninterp spec fn builder_elements(b: AnnBuilder) -> Seq<Seq<u32>>;

/// The builder's compiled search graph, identified with its serialized
/// form (the bytes granne's index writer produces for it).
pub uninterp spec fn builder_graph(b: AnnBuilder) -> Seq<u8>;

/// The dimension the builder's element collection is committed to: zero
/// until a first vector arrives or is loaded.
pub uninterp spec fn builder_width(b: AnnBuilder) -> nat;

/// The number of elements a serialized graph indexes.
pub uninterp spec fn graph_size(g: Seq<u8>) -> nat;

/// What granne's beam search returns on a given graph, element collection,
/// query, search width and requested count: deterministic in those alone.
pub uninterp spec fn search_of(g: Seq<u8>, es: Seq<Seq<u32>>, q: Seq<u32>, width: nat, k: nat) -> Seq<
    (nat, u32),
>;

/// The element collection a serialized elements stream decodes to.
pub uninterp spec fn elements_of_blob(eb: Seq<u8>) -> Seq<Seq<u32>>;

/// The bytes are an index stream granne's writer produced from a reachable
/// builder state: its reader accepts them without fault, and every node
/// reference in them lies within the graph's own node count.
pub uninterp spec fn index_blob_ok(ib: Seq<u8>) -> bool;

/// The bytes are an elements stream granne's writer produced: its reader
/// accepts them without fault.
pub uninterp spec fn elements_blob_ok(eb: Seq<u8>) -> bool;

/// Relies on GranneBuilder::new with the default build configuration: a
/// fresh builder holds no elements, no graph, and no committed dimension.
#[verifier::external_body]
pub fn builder_new() -> (r: AnnBuilder)
    ensures
        builder_elements(r) == Seq::<Seq<u32>>::empty(),
        graph_size(builder_graph(r)) == 0,
        index_blob_ok(builder_graph(r)),
        builder_width(r) == 0,
{
    AnnBuilder { inner: granne::GranneBuilder::new(granne::BuildConfig::default(), granne::angular::Vectors::new()) }
}

/// Relies on angular::Vector::from and GranneBuilder::push: the
/// normalization of the given components is appended to the element
/// collection; the graph is untouched. granne asserts that the dimension
/// matches the collection's and that the collection stays below its id
/// limit, so those are required here.
#[verifier::external_body]
pub fn builder_push(b: &mut AnnBuilder, v: &Vec<u32>)
    requires
        v@.len() >= 1,
        builder_width(*old(b)) == 0 || v@.len() == builder_width(*old(b)),
        builder_elements(*old(b)).len() < 0xffff_fffeusize,
    ensures
        builder_elements(*final(b)) == builder_elements(*old(b)).push(unit_of(v@)),
        builder_graph(*final(b)) == builder_graph(*old(b)),
        builder_width(*final(b)) == (if builder_width(*old(b)) == 0 {
            v@.len() as nat
        } else {
            builder_width(*old(b))
        }),
        builder_elements(*final(b)).last() == unit_of(v@),
        builder_elements(*final(b)).last().len() == v@.len(),
        vec_finite(v@) ==> vec_finite(builder_elements(*final(b)).last()),
{
    let mut bytes: Vec<u8> = Vec::with_capacity(8 + 4 * v.len());
    bytes.extend_from_slice(&v.len().to_le_bytes());
    for c in v.iter() {
        bytes.extend_from_slice(&c.to_le_bytes());
    }
    let one = granne::angular::Vectors::from_bytes(&bytes[..]);
    let raw = one.get_element(0).into_owned().into_vec();
    b.inner.push(granne::angular::Vector::from(raw));
}

/// Relies on Builder::build: compiles the whole element collection into a
/// new search graph; the elements and the dimension are untouched. Finite
/// components keep granne's distance computation free of faults, and
/// granne asserts that the current graph does not already index more
/// nodes than there are elements, so that is required here.
#[verifier::external_body]
pub fn builder_build(b: &mut AnnBuilder)
    requires
        forall|i: int|
            0 <= i < builder_elements(*old(b)).len() ==> vec_finite(
                #[trigger] builder_elements(*old(b))[i],
            ),
        graph_size(builder_graph(*old(b))) <= builder_elements(*old(b)).len(),
    ensures
        builder_elements(*final(b)) == builder_elements(*old(b)),
        builder_width(*final(b)) == builder_width(*old(b)),
        graph_size(builder_graph(*final(b))) == builder_elements(*old(b)).len(),
        index_blob_ok(builder_graph(*final(b))),
{
    b.inner.build();
}

/// Relies on GranneBuilder::get_elements and Vectors::len: the number of
/// accumulated elements.
#[verifier::external_body]
pub fn builder_num_elements(b: &AnnBuilder) -> (r: usize)
    ensures
        r == builder_elements(*b).len(),
{
    b.inner.get_elements().len()
}

/// Relies on Index::len for GranneBuilder: the number of elements the
/// current graph indexes.
#[verifier::external_body]
pub fn builder_indexed_len(b: &AnnBuilder) -> (r: usize)
    ensures
        r == graph_size(builder_graph(*b)),
{
    b.inner.len()
}

/// Relies on Vectors::dim: the committed dimension of the element
/// collection.
#[verifier::external_body]
pub fn builder_dim(b: &AnnBuilder) -> (r: usize)
    ensures
        r == builder_width(*b),
{
    b.inner.get_elements().dim()
}

/// Relies on Vectors::get_element: the stored components of the element
/// at the given insertion position, as bit patterns.
#[verifier::external_body]
pub fn builder_get_element(b: &AnnBuilder, i: usize) -> (r: Vec<u32>)
    requires
        i < builder_elements(*b).len(),
    ensures
        r@ == builder_elements(*b)[i as int],
{
    b.inner.get_elements().get_element(i).as_slice().iter().map(|x| x.to_bits()).collect()
}

/// Relies on Granne::search over GranneBuilder::get_index: granne's beam
/// search on the current graph, deterministic in the graph, the stored
/// elements, the query and the two counts. It visits only nodes of the
/// graph, returns each at most once, and returns at most `k` of them.
/// Results depend only on the graph and the elements it indexes — the
/// first `graph_size` of them — so vectors pushed after the last build
/// leave every search unchanged. A well-formed graph over finite stored
/// elements, a finite query and a positive search width keep it free of
/// faults (granne peeks its candidate heap, which a zero width leaves
/// empty).
#[verifier::external_body]
pub fn builder_search(b: &AnnBuilder, q: &Vec<u32>, max_search: usize, k: usize) -> (r: Vec<
    SearchResult,
>)
    requires
        max_search >= 1,
        q@.len() >= 1,
        vec_finite(q@),
        forall|i: int|
            0 <= i < builder_elements(*b).len() ==> vec_finite(#[trigger] builder_elements(*b)[i]),
        graph_size(builder_graph(*b)) <= builder_elements(*b).len(),
        index_blob_ok(builder_graph(*b)),
    ensures
        results_view(r@) == search_of(
            builder_graph(*b),
            builder_elements(*b).take(graph_size(builder_graph(*b)) as int),
            q@,
            max_search as nat,
            k as nat,
        ),
        r@.len() <= k,
        r@.len() <= graph_size(builder_graph(*b)),
        forall|i: int| 0 <= i < r@.len() ==> (#[trigger] r@[i]).index < graph_size(builder_graph(*b)),
        forall|i: int, j: int| 0 <= i < j < r@.len() ==> r@[i].index != r@[j].index,
{
    let mut bytes: Vec<u8> = Vec::with_capacity(8 + 4 * q.len());
    bytes.extend_from_slice(&q.len().to_le_bytes());
    for c in q.iter() {
        bytes.extend_from_slice(&c.to_le_bytes());
    }
    let one = granne::angular::Vectors::from_bytes(&bytes[..]);
    let raw = one.get_element(0).into_owned().into_vec();
    let query = granne::angular::Vector::from(raw);
    let found = b.inner.get_index().search(&query, max_search, k);
    found.into_iter().map(|x| SearchResult { index: x.0, score_bits: x.1.to_bits() }).collect()
}

/// Relies on Index::write_index for GranneBuilder: serializes the current
/// graph. Into an in-memory buffer every write and seek succeeds and the
/// metadata fits its fixed slot for every reachable layer count, so the
/// call cannot fail. The output is the graph's canonical byte form, and
/// granne's reader accepts it.
#[verifier::external_body]
pub fn builder_write_index(b: &AnnBuilder) -> (r: Vec<u8>)
    ensures
        r@ == builder_graph(*b),
        index_blob_ok(r@),
{
    let mut cur = std::io::Cursor::new(Vec::new());
    b.inner.write_index(&mut cur).unwrap();
    cur.into_inner()
}

/// Relies on GranneBuilder::write_elements: serializes the element
/// collection. Into an in-memory buffer every write succeeds, so the
/// call cannot fail. When the collection is non-empty, granne's reader
/// accepts the output and decodes it back to exactly the stored
/// elements; the stream of an empty collection carries a zero dimension,
/// which the reader rejects.
#[verifier::external_body]
pub fn builder_write_elements(b: &AnnBuilder) -> (r: Vec<u8>)
    ensures
        builder_elements(*b).len() >= 1 ==> elements_of_blob(r@) == builder_elements(*b)
            && elements_blob_ok(r@),
{
    let mut buf: Vec<u8> = Vec::new();
    b.inner.write_elements(&mut buf).unwrap();
    buf
}

/// Relies on Vectors::from_bytes and GranneBuilder::from_bytes: rebuilds a
/// builder from an index stream and an elements stream that granne's
/// writers produced. Both readers fault on other input, and granne
/// asserts that the collection stays below its id limit, so the streams
/// are required to be well formed and not oversized. Re-serializing the
/// loaded graph gives the same bytes back, and a non-empty loaded
/// collection commits to its elements' dimension.
#[verifier::external_body]
pub fn builder_from_blobs(ib: &Vec<u8>, eb: &Vec<u8>) -> (r: AnnBuilder)
    requires
        index_blob_ok(ib@),
        elements_blob_ok(eb@),
        elements_of_blob(eb@).len() < 0xffff_ffffusize,
    ensures
        builder_elements(r) == elements_of_blob(eb@),
        builder_graph(r) == ib@,
        elements_of_blob(eb@).len() >= 1 ==> builder_width(r) == elements_of_blob(
            eb@,
        )[0].len(),
{
    let elements = granne::angular::Vectors::from_bytes(&eb[..]).into_owned();
    let inner = granne::GranneBuilder::from_bytes(granne::BuildConfig::default(), &ib[..], elements);
    AnnBuilder { inner }
}

} // verus!
