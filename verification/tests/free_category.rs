use comp_cat_rs::collapse::free_category::{
    interpret, Edge, FreeCategoryError, Graph, GraphMorphism, Path, Vertex,
};

/// A simple test graph: two vertices, one edge.
///
/// ```text
///   0 --e0--> 1
/// ```
struct TwoVertexGraph;

impl Graph for TwoVertexGraph {
    fn vertex_count(&self) -> usize {
        2
    }

    fn edge_count(&self) -> usize {
        1
    }

    fn source(&self, edge: Edge) -> Result<Vertex, FreeCategoryError> {
        match edge.index() {
            0 => Ok(Vertex::new(0)),
            _ => Err(FreeCategoryError::EdgeOutOfBounds { edge, count: 1 }),
        }
    }

    fn target(&self, edge: Edge) -> Result<Vertex, FreeCategoryError> {
        match edge.index() {
            0 => Ok(Vertex::new(1)),
            _ => Err(FreeCategoryError::EdgeOutOfBounds { edge, count: 1 }),
        }
    }
}

/// A triangle graph: three vertices, three edges forming a cycle.
///
/// ```text
///   0 --e0--> 1 --e1--> 2 --e2--> 0
/// ```
struct TriangleGraph;

impl Graph for TriangleGraph {
    fn vertex_count(&self) -> usize {
        3
    }

    fn edge_count(&self) -> usize {
        3
    }

    fn source(&self, edge: Edge) -> Result<Vertex, FreeCategoryError> {
        match edge.index() {
            0 => Ok(Vertex::new(0)),
            1 => Ok(Vertex::new(1)),
            2 => Ok(Vertex::new(2)),
            _ => Err(FreeCategoryError::EdgeOutOfBounds { edge, count: 3 }),
        }
    }

    fn target(&self, edge: Edge) -> Result<Vertex, FreeCategoryError> {
        match edge.index() {
            0 => Ok(Vertex::new(1)),
            1 => Ok(Vertex::new(2)),
            2 => Ok(Vertex::new(0)),
            _ => Err(FreeCategoryError::EdgeOutOfBounds { edge, count: 3 }),
        }
    }
}

#[test]
fn identity_path_has_zero_length() {
    let p = Path::identity(Vertex::new(0));
    assert!(p.is_identity());
    assert_eq!(p.len(), 0);
    assert_eq!(p.source(), p.target());
}

#[test]
fn singleton_path_has_correct_endpoints() -> Result<(), FreeCategoryError> {
    let graph = TwoVertexGraph;
    let p = Path::singleton(&graph, Edge::new(0))?;
    assert_eq!(p.source(), Vertex::new(0));
    assert_eq!(p.target(), Vertex::new(1));
    assert_eq!(p.len(), 1);
    Ok(())
}

#[test]
fn singleton_out_of_bounds_returns_error() {
    let graph = TwoVertexGraph;
    let result = Path::singleton(&graph, Edge::new(5));
    assert!(result.is_err());
}

#[test]
fn compose_matching_paths_succeeds() -> Result<(), FreeCategoryError> {
    let graph = TriangleGraph;
    let p1 = Path::singleton(&graph, Edge::new(0))?; // 0 -> 1
    let p2 = Path::singleton(&graph, Edge::new(1))?; // 1 -> 2
    let composed = p1.compose(p2)?;
    assert_eq!(composed.source(), Vertex::new(0));
    assert_eq!(composed.target(), Vertex::new(2));
    assert_eq!(composed.len(), 2);
    Ok(())
}

#[test]
fn compose_mismatched_paths_fails() -> Result<(), FreeCategoryError> {
    let graph = TriangleGraph;
    let p1 = Path::singleton(&graph, Edge::new(0))?; // 0 -> 1
    let p2 = Path::singleton(&graph, Edge::new(2))?; // 2 -> 0
    let result = p1.compose(p2);
    assert!(result.is_err());
    Ok(())
}

#[test]
fn identity_is_left_unit() -> Result<(), FreeCategoryError> {
    let graph = TwoVertexGraph;
    let id = Path::identity(Vertex::new(0));
    let p = Path::singleton(&graph, Edge::new(0))?; // 0 -> 1
    let composed = id.compose(p)?;
    assert_eq!(composed.source(), Vertex::new(0));
    assert_eq!(composed.target(), Vertex::new(1));
    assert_eq!(composed.len(), 1);
    Ok(())
}

#[test]
fn identity_is_right_unit() -> Result<(), FreeCategoryError> {
    let graph = TwoVertexGraph;
    let p = Path::singleton(&graph, Edge::new(0))?; // 0 -> 1
    let id = Path::identity(Vertex::new(1));
    let composed = p.compose(id)?;
    assert_eq!(composed.source(), Vertex::new(0));
    assert_eq!(composed.target(), Vertex::new(1));
    assert_eq!(composed.len(), 1);
    Ok(())
}

#[test]
fn composition_is_associative() -> Result<(), FreeCategoryError> {
    let graph = TriangleGraph;
    let e0 = Path::singleton(&graph, Edge::new(0))?; // 0 -> 1
    let e1 = Path::singleton(&graph, Edge::new(1))?; // 1 -> 2
    let e2 = Path::singleton(&graph, Edge::new(2))?; // 2 -> 0

    // (e0 ; e1) ; e2
    let e0_copy = Path::singleton(&graph, Edge::new(0))?;
    let e1_copy = Path::singleton(&graph, Edge::new(1))?;
    let e2_copy = Path::singleton(&graph, Edge::new(2))?;
    let left = e0.compose(e1)?.compose(e2)?;

    // e0 ; (e1 ; e2)
    let right = e0_copy.compose(e1_copy.compose(e2_copy)?)?;

    assert_eq!(left.source(), right.source());
    assert_eq!(left.target(), right.target());
    assert_eq!(left.len(), right.len());
    assert_eq!(left.edges(), right.edges());
    Ok(())
}

/// A trivial interpretation: count the number of edges in a path.
struct CountMorphism;

impl GraphMorphism<TriangleGraph> for CountMorphism {
    type Object = Vertex;
    type Morphism = usize;

    fn map_vertex(&self, v: Vertex) -> Vertex {
        v
    }

    fn map_edge(&self, _e: Edge) -> usize {
        1
    }
}

#[test]
fn interpret_identity_gives_zero() {
    let id = Path::identity(Vertex::new(0));
    let result = interpret::<TriangleGraph, _>(&CountMorphism, &id, |_| 0, |a, b| a + b);
    assert_eq!(result, 0);
}

#[test]
fn interpret_path_counts_edges() -> Result<(), FreeCategoryError> {
    let graph = TriangleGraph;
    let p = Path::singleton(&graph, Edge::new(0))?
        .compose(Path::singleton(&graph, Edge::new(1))?)?
        .compose(Path::singleton(&graph, Edge::new(2))?)?;

    let result = interpret::<TriangleGraph, _>(&CountMorphism, &p, |_| 0, |a, b| a + b);
    assert_eq!(result, 3);
    Ok(())
}

#[test]
fn vertex_and_edge_keep_their_index() {
    assert_eq!(Vertex::new(7).index(), 7);
    assert_eq!(Edge::new(9).index(), 9);
    assert_ne!(Vertex::new(1), Vertex::new(2));
}

#[test]
fn singleton_out_of_bounds_reports_edge_and_count() {
    match Path::singleton(&TriangleGraph, Edge::new(4)) {
        Err(FreeCategoryError::EdgeOutOfBounds { edge, count }) => {
            assert_eq!(edge, Edge::new(4));
            assert_eq!(count, 3);
        }
        _ => panic!("expected EdgeOutOfBounds"),
    }
}

#[test]
fn singleton_is_not_identity() -> Result<(), FreeCategoryError> {
    let p = Path::singleton(&TriangleGraph, Edge::new(2))?;
    assert!(!p.is_empty());
    assert!(!p.is_identity());
    assert_eq!(p.edges(), &[Edge::new(2)]);
    Ok(())
}

#[test]
fn compose_mismatch_reports_both_endpoints() -> Result<(), FreeCategoryError> {
    let p1 = Path::singleton(&TriangleGraph, Edge::new(0))?; // 0 -> 1
    let p2 = Path::singleton(&TriangleGraph, Edge::new(2))?; // 2 -> 0
    match p1.compose(p2) {
        Err(FreeCategoryError::CompositionMismatch { target, source }) => {
            assert_eq!(target, Vertex::new(1));
            assert_eq!(source, Vertex::new(2));
        }
        _ => panic!("expected CompositionMismatch"),
    }
    Ok(())
}

#[test]
fn compose_concatenates_edges_in_order() -> Result<(), FreeCategoryError> {
    let p = Path::singleton(&TriangleGraph, Edge::new(1))?
        .compose(Path::singleton(&TriangleGraph, Edge::new(2))?)?
        .compose(Path::singleton(&TriangleGraph, Edge::new(0))?)?;
    assert_eq!(p.edges(), &[Edge::new(1), Edge::new(2), Edge::new(0)]);
    assert_eq!(p.source(), Vertex::new(1));
    assert_eq!(p.target(), Vertex::new(1));
    Ok(())
}

#[test]
fn composing_identities_gives_identity() -> Result<(), FreeCategoryError> {
    let id = Path::identity(Vertex::new(2)).compose(Path::identity(Vertex::new(2)))?;
    assert!(id.is_identity());
    assert_eq!(id.source(), Vertex::new(2));
    assert!(Path::identity(Vertex::new(0))
        .compose(Path::identity(Vertex::new(1)))
        .is_err());
    Ok(())
}

/// Interprets each edge as the digit `index + 1`; composition appends digits.
struct DigitMorphism;

impl GraphMorphism<TriangleGraph> for DigitMorphism {
    type Object = usize;
    type Morphism = usize;

    fn map_vertex(&self, v: Vertex) -> usize {
        v.index()
    }

    fn map_edge(&self, e: Edge) -> usize {
        e.index() + 1
    }
}

#[test]
fn interpret_folds_edges_from_the_left() -> Result<(), FreeCategoryError> {
    let p = Path::singleton(&TriangleGraph, Edge::new(0))?
        .compose(Path::singleton(&TriangleGraph, Edge::new(1))?)?
        .compose(Path::singleton(&TriangleGraph, Edge::new(2))?)?;
    let digits = interpret::<TriangleGraph, _>(&DigitMorphism, &p, |_| 0, |a, b| a * 10 + b);
    assert_eq!(digits, 123);
    let id = Path::identity(Vertex::new(2));
    let at = interpret::<TriangleGraph, _>(&DigitMorphism, &id, |o| *o + 40, |a, b| a * 10 + b);
    assert_eq!(at, 42);
    Ok(())
}

#[test]
fn interpret_of_composite_is_composite_of_interpretations() -> Result<(), FreeCategoryError> {
    // With an associative composition (addition), interpreting `p ; q`
    // composes the interpretations of `p` and of `q`.
    let p = Path::singleton(&TriangleGraph, Edge::new(0))?;
    let q = Path::singleton(&TriangleGraph, Edge::new(1))?
        .compose(Path::singleton(&TriangleGraph, Edge::new(2))?)?;
    let rp = interpret::<TriangleGraph, _>(&DigitMorphism, &p, |_| 0, |a, b| a + b);
    let rq = interpret::<TriangleGraph, _>(&DigitMorphism, &q, |_| 0, |a, b| a + b);
    let pq = p.compose(q)?;
    let rpq = interpret::<TriangleGraph, _>(&DigitMorphism, &pq, |_| 0, |a, b| a + b);
    assert_eq!(rpq, rp + rq);
    Ok(())
}

#[test]
fn singleton_accepts_a_graph_trait_object() -> Result<(), FreeCategoryError> {
    let graph: &dyn Graph = &TriangleGraph;
    let p = Path::singleton(graph, Edge::new(2))?;
    assert_eq!(p.source(), Vertex::new(2));
    assert_eq!(p.target(), Vertex::new(0));
    Ok(())
}
