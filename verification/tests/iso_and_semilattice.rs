use comp_cat_rs::foundation::iso::Iso;
use comp_cat_rs::foundation::semilattice::JoinSemilattice;

#[test]
fn iso_getters_return_components() {
    let iso = Iso::new(1u8, -1i8);
    assert_eq!(*iso.forward(), 1);
    assert_eq!(*iso.backward(), -1);
}

#[test]
fn iso_into_parts() {
    assert_eq!(Iso::new(3u32, 4u64).into_forward(), 3);
    assert_eq!(Iso::new(3u32, 4u64).into_backward(), 4);
}

#[test]
fn iso_flip_swaps_and_is_involutive() {
    let flipped = Iso::new("ab", 7u16).flip();
    assert_eq!(*flipped.forward(), 7);
    assert_eq!(*flipped.backward(), "ab");
    let back = flipped.flip();
    assert_eq!(*back.forward(), "ab");
    assert_eq!(*back.backward(), 7);
}

/// Natural numbers under `max`.
#[derive(Debug, Clone, Copy, PartialEq, Eq, PartialOrd)]
struct Level(u32);

impl JoinSemilattice for Level {
    fn join(&self, other: &Self) -> Self {
        Level(self.0.max(other.0))
    }
}

#[test]
fn join_is_commutative_associative_idempotent() {
    let (a, b, c) = (Level(3), Level(8), Level(5));
    assert_eq!(a.join(&b), b.join(&a));
    assert_eq!(a.join(&b).join(&c), a.join(&b.join(&c)));
    assert_eq!(a.join(&a), a);
}

#[test]
fn join_is_least_upper_bound() {
    let (a, b, c) = (Level(3), Level(8), Level(9));
    let j = a.join(&b);
    assert!(a <= j && b <= j);
    assert!(j <= c);
    assert_eq!(j, Level(8));
}
