//! Free categories over directed graphs.
//!
//! The free category `F(G)` on a graph `G` has:
//! - Objects = vertices of `G`
//! - Morphisms = directed paths in `G` (including the empty path)
//! - Composition = path concatenation
//! - Identity = empty path
//!
//! The universal property: any graph morphism from `G` into the
//! underlying graph of a category `C` extends to a functor `F(G) -> C`
//! (see [`interpret`] and [`lemma_interpret_preserves_composition`]).
use vstd::prelude::*;

verus! {

/// A vertex identifier in a graph.
///
/// Newtype over `usize` to prevent confusion with edge indices.
#[derive(Debug, Clone, Copy, PartialEq, Eq, Hash, Structural)]
pub struct Vertex(usize);

impl View for Vertex {
    type V = usize;

    /// The index that the vertex stands for.
    closed spec fn view(&self) -> usize {
        self.0
    }
}

impl Vertex {
    /// The vertex with the given index.
    pub closed spec fn spec_new(index: usize) -> Vertex {
        Vertex(index)
    }

    /// Create a new vertex identifier.
    #[verifier::when_used_as_spec(spec_new)]
    pub fn new(index: usize) -> (v: Self)
        ensures
            v == Vertex::spec_new(index),
            v@ == index,
    {
        Vertex(index)
    }

    /// The underlying index.
    pub fn index(self) -> (i: usize)
        ensures
            i == self@,
    {
        self.0
    }

    /// Two vertices are the same exactly when their indices are.
    pub broadcast proof fn lemma_view_injective(a: Vertex, b: Vertex)
        ensures
            (#[trigger] a@ == #[trigger] b@) <==> (a == b),
    {
    }

    /// The vertex made from an index has that index.
    pub broadcast proof fn lemma_spec_new_index(index: usize)
        ensures
            (#[trigger] Vertex::spec_new(index))@ == index,
    {
    }
}

/// An edge identifier in a graph.
///
/// Newtype over `usize` to prevent confusion with vertex indices.
#[derive(Debug, Clone, Copy, PartialEq, Eq, Hash, Structural)]
pub struct Edge(usize);

impl View for Edge {
    type V = usize;

    /// The index that the edge stands for.
    closed spec fn view(&self) -> usize {
        self.0
    }
}

impl Edge {
    /// The edge with the given index.
    pub closed spec fn spec_new(index: usize) -> Edge {
        Edge(index)
    }

    /// Create a new edge identifier.
    #[verifier::when_used_as_spec(spec_new)]
    pub fn new(index: usize) -> (e: Self)
        ensures
            e == Edge::spec_new(index),
            e@ == index,
    {
        Edge(index)
    }

    /// The underlying index.
    pub fn index(self) -> (i: usize)
        ensures
            i == self@,
    {
        self.0
    }

    /// Two edges are the same exactly when their indices are.
    pub broadcast proof fn lemma_view_injective(a: Edge, b: Edge)
        ensures
            (#[trigger] a@ == #[trigger] b@) <==> (a == b),
    {
    }

    /// The edge made from an index has that index.
    pub broadcast proof fn lemma_spec_new_index(index: usize)
        ensures
            (#[trigger] Edge::spec_new(index))@ == index,
    {
    }
}

/// Errors arising from free category operations.
#[derive(Debug)]
pub enum FreeCategoryError {
    /// An edge index was out of bounds.
    EdgeOutOfBounds {
        /// The invalid edge.
        edge: Edge,
        /// The number of edges in the graph.
        count: usize,
    },
    /// A vertex index was out of bounds.
    VertexOutOfBounds {
        /// The invalid vertex.
        vertex: Vertex,
        /// The number of vertices in the graph.
        count: usize,
    },
    /// Path composition failed: target of first path does not
    /// match source of second path.
    CompositionMismatch {
        /// The target of the first path.
        target: Vertex,
        /// The source of the second path.
        source: Vertex,
    },
}

/// A directed graph: the generating data for a free category.
///
/// A graph consists of a set of vertices, a set of edges, and
/// source/target functions mapping each edge to its endpoints.
/// The spec functions name what the executable methods return: a graph
/// is a fixed structure, so each method is a function of its arguments.
pub trait Graph {
    /// The number of vertices, as a mathematical value.
    /// An implementation defines it; the default leaves it unspecified.
    open spec fn spec_vertex_count(&self) -> usize {
        vstd::pervasive::arbitrary()
    }

    /// The number of edges, as a mathematical value.
    /// An implementation defines it; the default leaves it unspecified.
    open spec fn spec_edge_count(&self) -> usize {
        vstd::pervasive::arbitrary()
    }

    /// The source of an edge, or the error for an edge not in the graph.
    /// An implementation defines it; the default leaves it unspecified.
    open spec fn spec_source(&self, edge: Edge) -> Result<Vertex, FreeCategoryError> {
        vstd::pervasive::arbitrary()
    }

    /// The target of an edge, or the error for an edge not in the graph.
    /// An implementation defines it; the default leaves it unspecified.
    open spec fn spec_target(&self, edge: Edge) -> Result<Vertex, FreeCategoryError> {
        vstd::pervasive::arbitrary()
    }

    /// The number of vertices.
    fn vertex_count(&self) -> (n: usize)
        ensures
            n == self.spec_vertex_count(),
    ;

    /// The number of edges.
    fn edge_count(&self) -> (n: usize)
        ensures
            n == self.spec_edge_count(),
    ;

    /// The source vertex of an edge.
    ///
    /// Returns [`FreeCategoryError::EdgeOutOfBounds`] if the edge
    /// index is out of range.
    fn source(&self, edge: Edge) -> (r: Result<Vertex, FreeCategoryError>)
        ensures
            r == self.spec_source(edge),
            edge@ >= self.spec_edge_count() ==> r == Err::<Vertex, FreeCategoryError>(
                FreeCategoryError::EdgeOutOfBounds { edge, count: self.spec_edge_count() },
            ),
    ;

    /// The target vertex of an edge.
    ///
    /// Returns [`FreeCategoryError::EdgeOutOfBounds`] if the edge
    /// index is out of range.
    fn target(&self, edge: Edge) -> (r: Result<Vertex, FreeCategoryError>)
        ensures
            r == self.spec_target(edge),
            edge@ >= self.spec_edge_count() ==> r == Err::<Vertex, FreeCategoryError>(
                FreeCategoryError::EdgeOutOfBounds { edge, count: self.spec_edge_count() },
            ),
    ;
}

/// The mathematical model of a path: its endpoints and its edges in order.
pub struct PathView {
    /// The source vertex.
    pub source: Vertex,
    /// The edges, first to last.
    pub edges: Seq<Edge>,
    /// The target vertex.
    pub target: Vertex,
}

impl PathView {
    /// The empty path is the identity: its source and target agree.
    pub open spec fn wf(self) -> bool {
        self.edges.len() == 0 ==> self.source == self.target
    }

    /// The identity path on `v`.
    pub open spec fn identity(v: Vertex) -> PathView {
        PathView { source: v, edges: Seq::empty(), target: v }
    }

    /// Composition of two paths: defined exactly when the target of the
    /// first is the source of the second; the edges are concatenated.
    pub open spec fn compose(self, other: PathView) -> Result<PathView, FreeCategoryError> {
        if self.target == other.source {
            Ok(PathView { source: self.source, edges: self.edges + other.edges, target: other.target })
        } else {
            Err(FreeCategoryError::CompositionMismatch { target: self.target, source: other.source })
        }
    }

    /// The path is a walk in `graph`: consecutive edges meet, the first
    /// edge leaves `source` and the last edge enters `target`.
    pub open spec fn valid_in<G: Graph + ?Sized>(self, graph: &G) -> bool {
        if self.edges.len() == 0 {
            self.source == self.target
        } else {
            &&& graph.spec_source(self.edges[0]) == Ok::<Vertex, FreeCategoryError>(self.source)
            &&& graph.spec_target(self.edges.last()) == Ok::<Vertex, FreeCategoryError>(self.target)
            &&& forall|i: int|
                0 <= i < self.edges.len() - 1 ==> {
                    &&& (#[trigger] graph.spec_target(self.edges[i])) is Ok
                    &&& graph.spec_target(self.edges[i]) == graph.spec_source(self.edges[i + 1])
                }
        }
    }
}

/// The single-edge path that `graph` gives for `edge`, or the error that
/// the graph reports for it (the source is asked first).
pub open spec fn singleton_spec<G: Graph + ?Sized>(graph: &G, edge: Edge) -> Result<PathView, FreeCategoryError> {
    match graph.spec_source(edge) {
        Err(e) => Err(e),
        Ok(s) => match graph.spec_target(edge) {
            Err(e) => Err(e),
            Ok(t) => Ok(PathView { source: s, edges: seq![edge], target: t }),
        },
    }
}

/// A path in the free category: a morphism from `source` to `target`.
///
/// The empty path (no edges) is the identity morphism.
/// A non-empty path is a sequence of composable edges.
pub struct Path {
    source: Vertex,
    edges: Vec<Edge>,
    target: Vertex,
}

impl View for Path {
    type V = PathView;

    closed spec fn view(&self) -> PathView {
        PathView { source: self.source, edges: self.edges@, target: self.target }
    }
}

/// The model of a path result: the path's view, or the same error.
pub open spec fn path_result_view(r: Result<Path, FreeCategoryError>) -> Result<PathView, FreeCategoryError> {
    match r {
        Ok(p) => Ok(p@),
        Err(e) => Err(e),
    }
}

impl Path {
    /// An empty path leaves where it starts.
    #[verifier::type_invariant]
    spec fn inv(self) -> bool {
        self@.wf()
    }

    /// The identity path on a vertex (empty path).
    pub fn identity(v: Vertex) -> (p: Self)
        ensures
            p@ == PathView::identity(v),
    {
        Path { source: v, edges: Vec::new(), target: v }
    }

    /// A path consisting of a single edge.
    ///
    /// Returns the graph's error (for an edge out of range,
    /// [`FreeCategoryError::EdgeOutOfBounds`]) if the edge is not in the graph.
    pub fn singleton<G: Graph + ?Sized>(graph: &G, edge: Edge) -> (r: Result<Self, FreeCategoryError>)
        ensures
            path_result_view(r) == singleton_spec(graph, edge),
            edge@ >= graph.spec_edge_count() ==> (r matches Err(
                FreeCategoryError::EdgeOutOfBounds { edge: e, count: c },
            ) && e == edge && c == graph.spec_edge_count()),
            r matches Ok(p) ==> p@.valid_in(graph),
            r matches Ok(p) ==> {
                &&& p@.edges == seq![edge]
                &&& graph.spec_source(edge) == Ok::<Vertex, FreeCategoryError>(p@.source)
                &&& graph.spec_target(edge) == Ok::<Vertex, FreeCategoryError>(p@.target)
            },
            r is Ok <==> (graph.spec_source(edge) is Ok && graph.spec_target(edge) is Ok),
    {
        let src = match graph.source(edge) {
            Ok(s) => s,
            Err(e) => return Err(e),
        };
        let tgt = match graph.target(edge) {
            Ok(t) => t,
            Err(e) => return Err(e),
        };
        let mut edges: Vec<Edge> = Vec::new();
        edges.push(edge);
        let p = Path { source: src, edges, target: tgt };
        assert(p@.edges =~= seq![edge]);
        Ok(p)
    }

    /// The source vertex of this path.
    pub fn source(&self) -> (v: Vertex)
        ensures
            v == self@.source,
    {
        self.source
    }

    /// The target vertex of this path.
    pub fn target(&self) -> (v: Vertex)
        ensures
            v == self@.target,
    {
        self.target
    }

    /// The edges in this path.
    pub fn edges(&self) -> (es: &[Edge])
        ensures
            es@ == self@.edges,
    {
        self.edges.as_slice()
    }

    /// The length of this path (number of edges).
    pub fn len(&self) -> (n: usize)
        ensures
            n == self@.edges.len(),
    {
        self.edges.len()
    }

    /// Whether this path is empty (the identity morphism).
    pub fn is_empty(&self) -> (b: bool)
        ensures
            b == (self@.edges.len() == 0),
            b ==> self@ == PathView::identity(self@.source),
    {
        proof {
            use_type_invariant(self);
        }
        let b = self.edges.len() == 0;
        proof {
            if b {
                assert(self@.edges =~= Seq::<Edge>::empty());
            }
        }
        b
    }

    /// Whether this is the identity (empty) path.
    ///
    /// Alias for [`is_empty`](Self::is_empty) using categorical terminology.
    pub fn is_identity(&self) -> (b: bool)
        ensures
            b == (self@.edges.len() == 0),
            b ==> self@ == PathView::identity(self@.source),
    {
        self.is_empty()
    }

    /// Compose two paths: `self` followed by `other`.
    ///
    /// Requires: `self.target() == other.source()`
    ///
    /// Returns [`FreeCategoryError::CompositionMismatch`] if the
    /// target of `self` does not equal the source of `other`.
    pub fn compose(self, other: Self) -> (r: Result<Self, FreeCategoryError>)
        ensures
            path_result_view(r) == self@.compose(other@),
    {
        proof {
            use_type_invariant(&self);
            use_type_invariant(&other);
        }
        if self.target == other.source {
            let Path { source, edges, target: _ } = self;
            let Path { source: _, edges: other_edges, target } = other;
            let mut all = edges;
            let mut rest = other_edges;
            all.append(&mut rest);
            let p = Path { source, edges: all, target };
            Ok(p)
        } else {
            Err(FreeCategoryError::CompositionMismatch { target: self.target, source: other.source })
        }
    }
}

/// A graph morphism: maps vertices to objects and edges to morphisms.
///
/// This is the "interpretation" of graph generators into a target
/// structure.  The universal property of the free category says
/// that any graph morphism extends to a functor.  The spec functions
/// name what the executable maps return.
pub trait GraphMorphism<G: Graph> {
    /// The target type for vertices (objects in the target category).
    type Object;

    /// The target type for edges (morphisms in the target category).
    type Morphism;

    /// The object that a vertex is mapped to.
    /// An implementation defines it; the default leaves it unspecified.
    open spec fn spec_map_vertex(&self, v: Vertex) -> Self::Object {
        vstd::pervasive::arbitrary()
    }

    /// The morphism that an edge is mapped to.
    /// An implementation defines it; the default leaves it unspecified.
    open spec fn spec_map_edge(&self, e: Edge) -> Self::Morphism {
        vstd::pervasive::arbitrary()
    }

    /// Map a vertex to an object.
    fn map_vertex(&self, v: Vertex) -> (o: Self::Object)
        ensures
            o == self.spec_map_vertex(v),
    ;

    /// Map an edge to a morphism.
    fn map_edge(&self, e: Edge) -> (m: Self::Morphism)
        ensures
            m == self.spec_map_edge(e),
    ;
}

/// `r` is a value that folding the mapped edges of the non-empty `edges`
/// from the left with `comp_fn` can produce: the first edge's morphism,
/// then `comp_fn(acc, next)` for each following edge.
pub open spec fn folds_to<G: Graph, M: GraphMorphism<G>, C: Fn(M::Morphism, M::Morphism) -> M::Morphism>(
    morphism: &M,
    comp_fn: C,
    edges: Seq<Edge>,
    r: M::Morphism,
) -> bool
    decreases edges.len(),
{
    if edges.len() == 0 {
        false
    } else if edges.len() == 1 {
        r == morphism.spec_map_edge(edges[0])
    } else {
        exists|acc: M::Morphism|
            #![trigger call_ensures(comp_fn, (acc, morphism.spec_map_edge(edges.last())), r)]
            folds_to(morphism, comp_fn, edges.drop_last(), acc) && call_ensures(
                comp_fn,
                (acc, morphism.spec_map_edge(edges.last())),
                r,
            )
    }
}

/// Left fold of the mapped edges of a non-empty sequence with a
/// composition given as a spec function.
pub open spec fn fold_morphisms<Mor>(map_edge: spec_fn(Edge) -> Mor, comp: spec_fn(Mor, Mor) -> Mor, edges: Seq<Edge>) -> Mor
    decreases edges.len(),
{
    if edges.len() <= 1 {
        map_edge(edges[0])
    } else {
        comp(fold_morphisms(map_edge, comp, edges.drop_last()), map_edge(edges.last()))
    }
}

/// Interpret a path in the free category via a graph morphism.
///
/// This is the universal property: the functor extending the graph
/// morphism to the free category.
///
/// For the identity path, returns `id_fn(source_object)`.
/// For a non-empty path, folds the interpreted edges via `comp_fn`.
pub fn interpret<G, M>(
    morphism: &M,
    path: &Path,
    id_fn: impl Fn(&M::Object) -> M::Morphism,
    comp_fn: impl Fn(M::Morphism, M::Morphism) -> M::Morphism,
) -> (r: M::Morphism) where G: Graph, M: GraphMorphism<G>
    requires
        forall|o: &M::Object| call_requires(id_fn, (o,)),
        forall|a: M::Morphism, b: M::Morphism| call_requires(comp_fn, (a, b)),
    ensures
        path@.edges.len() == 0 ==> call_ensures(id_fn, (&morphism.spec_map_vertex(path@.source),), r),
        path@.edges.len() > 0 ==> folds_to(morphism, comp_fn, path@.edges, r),
        path@.edges.len() == 1 ==> r == morphism.spec_map_edge(path@.edges[0]),
{
    let n = path.edges.len();
    if n == 0 {
        let obj = morphism.map_vertex(path.source);
        return id_fn(&obj);
    }
    let mut acc = morphism.map_edge(path.edges[0]);
    assert(path@.edges.take(1) =~= seq![path@.edges[0]]);
    let mut i: usize = 1;
    while i < n
        invariant
            1 <= i <= n,
            n == path@.edges.len(),
            forall|a: M::Morphism, b: M::Morphism| call_requires(comp_fn, (a, b)),
            folds_to(morphism, comp_fn, path@.edges.take(i as int), acc),
        decreases n - i,
    {
        let m = morphism.map_edge(path.edges[i]);
        let ghost prev = acc;
        acc = comp_fn(acc, m);
        proof {
            let next = path@.edges.take(i + 1);
            assert(next.drop_last() =~= path@.edges.take(i as int));
            assert(next.last() == path@.edges[i as int]);
            assert(call_ensures(comp_fn, (prev, morphism.spec_map_edge(next.last())), acc));
        }
        i = i + 1;
    }
    assert(path@.edges.take(n as int) =~= path@.edges);
    acc
}

/// Left unit law: the identity on the source of `p`, followed by `p`, is `p`.
pub proof fn lemma_identity_left_unit(p: PathView)
    ensures
        PathView::identity(p.source).compose(p) == Ok::<PathView, FreeCategoryError>(p),
{
    assert(Seq::<Edge>::empty() + p.edges =~= p.edges);
}

/// Right unit law: `p` followed by the identity on its target is `p`.
pub proof fn lemma_identity_right_unit(p: PathView)
    ensures
        p.compose(PathView::identity(p.target)) == Ok::<PathView, FreeCategoryError>(p),
{
    assert(p.edges + Seq::<Edge>::empty() =~= p.edges);
}

/// Associativity: `(p ; q) ; r` and `p ; (q ; r)` are defined on the same
/// paths (exactly when `p` meets `q` and `q` meets `r`), and are then equal.
pub proof fn lemma_compose_associative(p: PathView, q: PathView, r: PathView)
    ensures
        ({
            let left = match p.compose(q) {
                Ok(pq) => pq.compose(r),
                Err(e) => Err(e),
            };
            let right = match q.compose(r) {
                Ok(qr) => p.compose(qr),
                Err(e) => Err(e),
            };
            &&& left is Ok <==> (p.target == q.source && q.target == r.source)
            &&& right is Ok <==> (p.target == q.source && q.target == r.source)
            &&& left is Ok ==> left == right
        }),
{
    assert(p.edges + q.edges + r.edges =~= p.edges + (q.edges + r.edges));
}

/// Composition keeps an empty path an identity: composing well-formed
/// paths gives a well-formed path.
pub proof fn lemma_compose_preserves_wf(p: PathView, q: PathView)
    requires
        p.wf(),
        q.wf(),
    ensures
        p.compose(q) matches Ok(pq) ==> pq.wf(),
{
}

/// The identity path on any vertex is a walk in every graph.
pub proof fn lemma_identity_valid<G: Graph + ?Sized>(graph: &G, v: Vertex)
    ensures
        PathView::identity(v).valid_in(graph),
{
}

/// Composing two walks of a graph gives a walk of the same graph.
pub proof fn lemma_compose_preserves_validity<G: Graph + ?Sized>(graph: &G, p: PathView, q: PathView)
    requires
        p.valid_in(graph),
        q.valid_in(graph),
    ensures
        p.compose(q) matches Ok(pq) ==> pq.valid_in(graph),
{
    if p.target == q.source {
        let pq = PathView { source: p.source, edges: p.edges + q.edges, target: q.target };
        if p.edges.len() == 0 {
            assert(pq.edges =~= q.edges);
        } else if q.edges.len() == 0 {
            assert(pq.edges =~= p.edges);
        } else {
            let n = p.edges.len();
            assert(pq.edges[0] == p.edges[0]);
            assert(pq.edges.last() == q.edges.last());
            assert forall|i: int| 0 <= i < pq.edges.len() - 1 implies {
                &&& (#[trigger] graph.spec_target(pq.edges[i])) is Ok
                &&& graph.spec_target(pq.edges[i]) == graph.spec_source(pq.edges[i + 1])
            } by {
                if i < n - 1 {
                    assert(pq.edges[i] == p.edges[i]);
                    assert(pq.edges[i + 1] == p.edges[i + 1]);
                } else if i == n - 1 {
                    assert(pq.edges[i] == p.edges.last());
                    assert(pq.edges[i + 1] == q.edges[0]);
                } else {
                    assert(pq.edges[i] == q.edges[i - n]);
                    assert(pq.edges[i + 1] == q.edges[i - n + 1]);
                }
            }
        }
    }
}

/// When `comp_fn` computes the spec function `comp`, every value that the
/// fold over `edges` can produce is the spec fold.
pub proof fn lemma_folds_to_functional<G: Graph, M: GraphMorphism<G>, C: Fn(M::Morphism, M::Morphism) -> M::Morphism>(
    morphism: &M,
    comp_fn: C,
    comp: spec_fn(M::Morphism, M::Morphism) -> M::Morphism,
    edges: Seq<Edge>,
    r: M::Morphism,
)
    requires
        forall|a: M::Morphism, b: M::Morphism, c: M::Morphism|
            #[trigger] call_ensures(comp_fn, (a, b), c) ==> c == comp(a, b),
        folds_to(morphism, comp_fn, edges, r),
    ensures
        r == fold_morphisms(|e: Edge| morphism.spec_map_edge(e), comp, edges),
    decreases edges.len(),
{
    if edges.len() > 1 {
        let acc = choose|acc: M::Morphism|
            #![trigger call_ensures(comp_fn, (acc, morphism.spec_map_edge(edges.last())), r)]
            folds_to(morphism, comp_fn, edges.drop_last(), acc) && call_ensures(
                comp_fn,
                (acc, morphism.spec_map_edge(edges.last())),
                r,
            );
        lemma_folds_to_functional(morphism, comp_fn, comp, edges.drop_last(), acc);
    }
}

/// Folding a concatenation with an associative composition composes the
/// folds of the two parts.
pub proof fn lemma_fold_concat<Mor>(map_edge: spec_fn(Edge) -> Mor, comp: spec_fn(Mor, Mor) -> Mor, s: Seq<Edge>, t: Seq<Edge>)
    requires
        forall|a: Mor, b: Mor, c: Mor| #[trigger] comp(comp(a, b), c) == comp(a, comp(b, c)),
        s.len() > 0,
        t.len() > 0,
    ensures
        fold_morphisms(map_edge, comp, s + t) == comp(fold_morphisms(map_edge, comp, s), fold_morphisms(map_edge, comp, t)),
    decreases t.len(),
{
    let st = s + t;
    assert(st.last() == t.last());
    if t.len() == 1 {
        assert(st.drop_last() =~= s);
    } else {
        assert(st.drop_last() =~= s + t.drop_last());
        lemma_fold_concat(map_edge, comp, s, t.drop_last());
        let a = fold_morphisms(map_edge, comp, s);
        let b = fold_morphisms(map_edge, comp, t.drop_last());
        let c = map_edge(t.last());
        assert(comp(comp(a, b), c) == comp(a, comp(b, c)));
    }
}

/// The universal property: interpreting a graph morphism into a
/// composition that is associative (and that `comp_fn` computes) is a
/// functor on non-empty paths, that is, the interpretation of `p ; q` is
/// the composition of the interpretations of `p` and of `q`.
pub proof fn lemma_interpret_preserves_composition<G: Graph, M: GraphMorphism<G>, C: Fn(M::Morphism, M::Morphism) -> M::Morphism>(
    morphism: &M,
    comp_fn: C,
    comp: spec_fn(M::Morphism, M::Morphism) -> M::Morphism,
    p: PathView,
    q: PathView,
    r_p: M::Morphism,
    r_q: M::Morphism,
    r_pq: M::Morphism,
)
    requires
        forall|a: M::Morphism, b: M::Morphism, c: M::Morphism|
            #[trigger] call_ensures(comp_fn, (a, b), c) ==> c == comp(a, b),
        forall|a: M::Morphism, b: M::Morphism, c: M::Morphism| #[trigger] comp(comp(a, b), c) == comp(a, comp(b, c)),
        p.target == q.source,
        folds_to(morphism, comp_fn, p.edges, r_p),
        folds_to(morphism, comp_fn, q.edges, r_q),
        folds_to(morphism, comp_fn, p.edges + q.edges, r_pq),
    ensures
        p.compose(q) matches Ok(pq) && pq.edges == p.edges + q.edges,
        r_pq == comp(r_p, r_q),
{
    let f = |e: Edge| morphism.spec_map_edge(e);
    lemma_folds_to_functional(morphism, comp_fn, comp, p.edges, r_p);
    lemma_folds_to_functional(morphism, comp_fn, comp, q.edges, r_q);
    lemma_folds_to_functional(morphism, comp_fn, comp, p.edges + q.edges, r_pq);
    lemma_fold_concat(f, comp, p.edges, q.edges);
}

/// Uniqueness in the universal property: an interpretation of non-empty
/// edge sequences that agrees with `map_edge` on single edges and turns
/// concatenation into `comp` is the fold of the mapped edges.
pub proof fn lemma_interpretation_unique<Mor>(
    map_edge: spec_fn(Edge) -> Mor,
    comp: spec_fn(Mor, Mor) -> Mor,
    functor: spec_fn(Seq<Edge>) -> Mor,
    edges: Seq<Edge>,
)
    requires
        forall|e: Edge| #[trigger] functor(seq![e]) == map_edge(e),
        forall|s: Seq<Edge>, t: Seq<Edge>|
            s.len() > 0 && t.len() > 0 ==> #[trigger] functor(s + t) == comp(functor(s), functor(t)),
        edges.len() > 0,
    ensures
        functor(edges) == fold_morphisms(map_edge, comp, edges),
    decreases edges.len(),
{
    if edges.len() == 1 {
        assert(edges =~= seq![edges[0]]);
    } else {
        let init = edges.drop_last();
        let last = seq![edges.last()];
        assert(edges =~= init + last);
        lemma_interpretation_unique(map_edge, comp, functor, init);
    }
}

/// A successful singleton is the one-edge walk from the graph's source of
/// the edge to its target; it succeeds exactly when the graph gives both.
pub proof fn lemma_singleton_is_one_edge<G: Graph + ?Sized>(graph: &G, edge: Edge)
    ensures
        singleton_spec(graph, edge) is Ok <==> (graph.spec_source(edge) is Ok && graph.spec_target(edge) is Ok),
        singleton_spec(graph, edge) matches Ok(p) ==> {
            &&& p.edges.len() == 1
            &&& p.edges[0] == edge
            &&& graph.spec_source(edge) == Ok::<Vertex, FreeCategoryError>(p.source)
            &&& graph.spec_target(edge) == Ok::<Vertex, FreeCategoryError>(p.target)
        },
{
}

/// The fold of a single edge is that edge's morphism.
pub proof fn lemma_folds_to_single<G: Graph, M: GraphMorphism<G>, C: Fn(M::Morphism, M::Morphism) -> M::Morphism>(
    morphism: &M,
    comp_fn: C,
    e: Edge,
    r: M::Morphism,
)
    ensures
        folds_to(morphism, comp_fn, seq![e], r) <==> r == morphism.spec_map_edge(e),
{
}

/// The fold is a left fold: the results on `s ++ [e]` are exactly the
/// values of `comp_fn(acc, map_edge(e))` for the results `acc` on `s`,
/// whatever `comp_fn` is.
pub proof fn lemma_folds_to_snoc<G: Graph, M: GraphMorphism<G>, C: Fn(M::Morphism, M::Morphism) -> M::Morphism>(
    morphism: &M,
    comp_fn: C,
    s: Seq<Edge>,
    e: Edge,
    r: M::Morphism,
)
    requires
        s.len() > 0,
    ensures
        folds_to(morphism, comp_fn, s.push(e), r) <==> exists|acc: M::Morphism|
            #![trigger call_ensures(comp_fn, (acc, morphism.spec_map_edge(e)), r)]
            folds_to(morphism, comp_fn, s, acc) && call_ensures(comp_fn, (acc, morphism.spec_map_edge(e)), r),
{
    let t = s.push(e);
    assert(t.drop_last() =~= s);
    assert(t.last() == e);
}

/// The spec fold is a left fold for any composition, associative or not:
/// folding `s ++ [e]` composes the fold of `s` with the morphism of `e`.
pub proof fn lemma_fold_morphisms_snoc<Mor>(map_edge: spec_fn(Edge) -> Mor, comp: spec_fn(Mor, Mor) -> Mor, s: Seq<Edge>, e: Edge)
    requires
        s.len() > 0,
    ensures
        fold_morphisms(map_edge, comp, seq![e]) == map_edge(e),
        fold_morphisms(map_edge, comp, s.push(e)) == comp(fold_morphisms(map_edge, comp, s), map_edge(e)),
{
    let t = s.push(e);
    assert(t.drop_last() =~= s);
    assert(t.last() == e);
}

} // verus!
