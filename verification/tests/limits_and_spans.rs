use comp_cat_rs::collapse::free_category::{FreeCategoryError, Vertex};
use comp_cat_rs::collapse::limit::{Cospan, HasPullbacks, Pullback};
use comp_cat_rs::collapse::span::{compose_spans, Span};

/// An arrow `from -> to` of the poset of natural numbers (it exists when `from <= to`).
#[derive(Debug, Clone, Copy, PartialEq, Eq)]
struct Arrow(u64, u64);

/// The poset of natural numbers, seen as a category: pullbacks are minima.
struct NaturalOrder;

impl HasPullbacks for NaturalOrder {
    type Obj = u64;
    type Mor = Arrow;

    fn pullback(
        &self,
        cospan: Cospan<u64, Arrow>,
    ) -> Result<Pullback<u64, Arrow>, FreeCategoryError> {
        let Arrow(a, c1) = *cospan.left();
        let Arrow(b, c2) = *cospan.right();
        if c1 != *cospan.apex() || c2 != *cospan.apex() {
            return Err(FreeCategoryError::CompositionMismatch {
                target: Vertex::new(c1 as usize),
                source: Vertex::new(c2 as usize),
            });
        }
        let p = a.min(b);
        Ok(Pullback::new(p, Arrow(p, a), Arrow(p, b), cospan))
    }
}

fn then(f: Arrow, g: Arrow) -> Arrow {
    Arrow(f.0, g.1)
}

#[test]
fn cospan_getters_return_components() {
    let c = Cospan::new(Arrow(1, 5), Arrow(3, 5), 5u64);
    assert_eq!(*c.left(), Arrow(1, 5));
    assert_eq!(*c.right(), Arrow(3, 5));
    assert_eq!(*c.apex(), 5);
}

#[test]
fn pullback_getters_return_components() {
    let c = Cospan::new(Arrow(1, 5), Arrow(3, 5), 5u64);
    let p = Pullback::new(1u64, Arrow(1, 1), Arrow(1, 3), c);
    assert_eq!(*p.apex(), 1);
    assert_eq!(*p.proj_left(), Arrow(1, 1));
    assert_eq!(*p.proj_right(), Arrow(1, 3));
    assert_eq!(*p.cospan().left(), Arrow(1, 5));
    assert_eq!(*p.cospan().apex(), 5);
}

#[test]
fn span_getters_return_components() {
    let s = Span::new(2u64, Arrow(2, 4), Arrow(2, 7));
    assert_eq!(*s.apex(), 2);
    assert_eq!(*s.left(), Arrow(2, 4));
    assert_eq!(*s.right(), Arrow(2, 7));
}

#[test]
fn compose_spans_builds_over_the_pullback() {
    // 4 <- 2 -> 6 and 6 <- 3 -> 9: the inner cospan 2 -> 6 <- 3 has pullback 2.
    let first = Span::new(2u64, Arrow(2, 4), Arrow(2, 6));
    let second = Span::new(3u64, Arrow(3, 6), Arrow(3, 9));
    let composed = compose_spans(first, second, 6u64, &NaturalOrder, then)
        .expect("the inner legs meet at 6");
    assert_eq!(*composed.pullback().apex(), 2);
    assert_eq!(*composed.pullback().proj_left(), Arrow(2, 2));
    assert_eq!(*composed.pullback().proj_right(), Arrow(2, 3));
    assert_eq!(*composed.pullback().cospan().left(), Arrow(2, 6));
    assert_eq!(*composed.pullback().cospan().right(), Arrow(3, 6));
    assert_eq!(*composed.pullback().cospan().apex(), 6);
    assert_eq!(*composed.span().apex(), 2);
    assert_eq!(*composed.span().left(), Arrow(2, 4));
    assert_eq!(*composed.span().right(), Arrow(2, 9));
}

#[test]
fn compose_spans_passes_on_the_pullback_error() {
    // The inner legs end at 6 and 7: no pullback over the shared object 6.
    let first = Span::new(2u64, Arrow(2, 4), Arrow(2, 6));
    let second = Span::new(3u64, Arrow(3, 7), Arrow(3, 9));
    let result = compose_spans(first, second, 6u64, &NaturalOrder, then);
    match result {
        Err(FreeCategoryError::CompositionMismatch { target, source }) => {
            assert_eq!(target, Vertex::new(6));
            assert_eq!(source, Vertex::new(7));
        }
        _ => panic!("expected the category's error"),
    }
}
