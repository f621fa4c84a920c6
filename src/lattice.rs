//! Linear indexing of a cubic grid, with `x` varying fastest, then `y`, then
//! `z`. A field of resolution `n` has `n + 1` lattice points and `n` cells
//! per axis; both are walked with the same encoding.
use vstd::prelude::*;
use vstd::arithmetic::div_mod::{
    lemma_div_denominator, lemma_div_by_multiple_is_strongly_ordered,
    lemma_fundamental_div_mod, lemma_fundamental_div_mod_converse,
};

verus! {

/// Number of points in a cube of side `side`.
pub open spec fn cube(side: int) -> int {
    side * side * side
}

/// Linear index of `(x, y, z)` in a cube of side `side`.
pub open spec fn linear_index(side: int, x: int, y: int, z: int) -> int {
    x + y * side + z * (side * side)
}

/// The `x` coordinate of linear index `i` in a cube of side `side`.
pub open spec fn index_x(side: int, i: int) -> int {
    i % side
}

/// The `y` coordinate of linear index `i` in a cube of side `side`.
pub open spec fn index_y(side: int, i: int) -> int {
    (i / side) % side
}

/// The `z` coordinate of linear index `i` in a cube of side `side`.
pub open spec fn index_z(side: int, i: int) -> int {
    i / (side * side)
}

/// Decoding an index of a cube gives coordinates inside the cube, and
/// encoding them again gives back the index.
pub proof fn lemma_index_round_trip(side: int, i: int)
    requires
        side > 0,
        0 <= i < cube(side),
    ensures
        0 <= index_x(side, i) < side,
        0 <= index_y(side, i) < side,
        0 <= index_z(side, i) < side,
        linear_index(side, index_x(side, i), index_y(side, i), index_z(side, i)) == i,
{
    let q = i / side;
    lemma_fundamental_div_mod(i, side);
    lemma_fundamental_div_mod(q, side);
    lemma_div_denominator(i, side, side);
    assert(0 <= q) by (nonlinear_arith)
        requires
            side > 0,
            i >= 0,
            q == i / side,
    ;
    let x = i % side;
    let y = q % side;
    let z = q / side;
    assert(i == x + y * side + z * (side * side)) by (nonlinear_arith)
        requires
            i == side * q + x,
            q == side * z + y,
    ;
    assert(cube(side) == side * (side * side)) by (nonlinear_arith);
    assert(side * side > 0) by (nonlinear_arith)
        requires
            side > 0,
    ;
    lemma_div_by_multiple_is_strongly_ordered(i, cube(side), side, side * side);
    lemma_div_multiples(side, side * side);
}

proof fn lemma_div_multiples(m: int, z: int)
    requires
        z > 0,
    ensures
        (m * z) / z == m,
{
    lemma_fundamental_div_mod_converse(m * z, z, m, 0);
}

/// Encoding coordinates inside a cube gives an index of the cube, and
/// decoding it gives back the coordinates.
pub proof fn lemma_coords_round_trip(side: int, x: int, y: int, z: int)
    requires
        0 <= x < side,
        0 <= y < side,
        0 <= z < side,
    ensures
        0 <= linear_index(side, x, y, z) < cube(side),
        index_x(side, linear_index(side, x, y, z)) == x,
        index_y(side, linear_index(side, x, y, z)) == y,
        index_z(side, linear_index(side, x, y, z)) == z,
{
    let i = linear_index(side, x, y, z);
    let q = y + side * z;
    assert(i == q * side + x) by (nonlinear_arith)
        requires
            i == x + y * side + z * (side * side),
            q == y + side * z,
    ;
    assert(0 <= i < cube(side)) by (nonlinear_arith)
        requires
            i == x + y * side + z * (side * side),
            0 <= x < side,
            0 <= y < side,
            0 <= z < side,
    ;
    lemma_fundamental_div_mod_converse(i, side, q, x);
    assert(q == z * side + y) by (nonlinear_arith)
        requires
            q == y + side * z,
    ;
    lemma_fundamental_div_mod_converse(q, side, z, y);
    lemma_div_denominator(i, side, side);
}

/// Linear index of `(x, y, z)` in a cube of side `side`.
pub fn encode_index(side: usize, x: usize, y: usize, z: usize) -> (index: usize)
    requires
        x < side,
        y < side,
        z < side,
        cube(side as int) <= usize::MAX,
    ensures
        index == linear_index(side as int, x as int, y as int, z as int),
{
    proof {
        lemma_coords_round_trip(side as int, x as int, y as int, z as int);
        assert(0 <= y * side <= linear_index(side as int, x as int, y as int, z as int))
            by (nonlinear_arith)
            requires
                x < side,
                y < side,
                z < side,
        ;
        assert(0 <= z * (side * side) <= linear_index(side as int, x as int, y as int, z as int))
            by (nonlinear_arith)
            requires
                x < side,
                y < side,
                z < side,
        ;
        assert(side * side <= cube(side as int)) by (nonlinear_arith)
            requires
                z < side,
        ;
    }
    let area = side * side;
    x + y * side + z * area
}

/// Coordinates `(x, y, z)` of linear index `index` in a cube of side `side`.
pub fn decode_index(side: usize, index: usize) -> (coords: (usize, usize, usize))
    requires
        side > 0,
    ensures
        coords.0 == index_x(side as int, index as int),
        coords.1 == index_y(side as int, index as int),
        coords.2 == index_z(side as int, index as int),
{
    proof {
        lemma_div_denominator(index as int, side as int, side as int);
    }
    let row = index / side;
    (index % side, row % side, row / side)
}

} // verus!
