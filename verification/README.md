# comp_cat_rs

Computational category theory in Rust, with the parts that are plain
mathematics stated over models and proved with Verus.

## Layout

- `src/` — the verified library.
  - `collapse/free_category.rs`: vertices, edges, graphs, paths of the free
    category, their composition and the interpretation of paths through a
    graph morphism.  Proved: the unit and associativity laws of composition,
    that composition keeps paths walks of their graph, and that
    interpretation is a functor (and the only one) when the composition it
    folds with is associative.
  - `collapse/limit.rs`, `collapse/span.rs`: cospans, pullbacks, spans and
    span composition through the pullback of the inner legs.
  - `foundation/iso.rs`: isomorphisms and their flip.
  - `foundation/semilattice.rs`: join-semilattices; from the algebraic laws
    of the join, the order is a partial order and the join its least upper
    bound.
  - `effect/resource.rs`: what a bracket returns from the outcomes of the
    use and of the release.
- `app/` — the rest: the trait hierarchy built on generic associated types
  (`Kind`, `Functor`, `Monad`, `Category`, monoidal categories, natural
  transformations, adjunctions, Kan extensions) and the effect system
  (`Io`, `Resource`, `Stream`, `Fiber`), which stores closures as
  `Box<dyn FnOnce ..>`.  Verus accepts neither.
- `tests/` — tests of the library.
