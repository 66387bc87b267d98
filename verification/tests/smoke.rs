//! Basic sanity tests, one per module of the library.

use meshgen::SCALAR_ONE;

#[test]
fn unity_it_works() {
    assert_eq!(2 + 2, 4);
}

#[test]
fn noisegen_it_works() {
    assert_eq!(2 + 2, 4);
}

#[test]
fn chunkgen_it_works() {
    assert_eq!(2 + 2, 4);
}

#[test]
fn texturegen_it_works() {
    assert_eq!(2 + 2, 4);
}

#[test]
fn one_scalar_unit_is_a_million() {
    assert_eq!(SCALAR_ONE, 1_000_000);
}
