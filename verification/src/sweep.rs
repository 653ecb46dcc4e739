//! Order of the spring/damper grid of a parameter sweep.

use vstd::prelude::*;

verus! {

/// The grid point of row `i` (spring rate) and column `j` (damping) sits at
/// position `i · columns + j`.
pub open spec fn grid_index(i: int, j: int, columns: int) -> int {
    i * columns + j
}

proof fn lemma_grid_index_bounds(i: int, j: int, rows: int, columns: int)
    requires
        0 <= i < rows,
        0 <= j < columns,
    ensures
        0 <= grid_index(i, j, columns) < rows * columns,
        grid_index(i, j, columns) < (i + 1) * columns,
        i * columns <= grid_index(i, j, columns),
{
    assert(0 <= i * columns) by (nonlinear_arith)
        requires
            0 <= i,
            0 <= columns,
    ;
    assert((i + 1) * columns <= rows * columns) by (nonlinear_arith)
        requires
            i + 1 <= rows,
            0 <= columns,
    ;
    assert((i + 1) * columns == i * columns + columns) by (nonlinear_arith);
}

/// Every (spring rate, damping) pair of a sweep, spring rate in the outer
/// order and damping in the inner order: the pair of `k_values[i]` and
/// `c_values[j]` is at position `i · c_values.len() + j`.
pub fn sweep_grid(k_values: &[u64], c_values: &[u64]) -> (grid: Vec<(u64, u64)>)
    requires
        k_values@.len() * c_values@.len() <= usize::MAX,
    ensures
        grid@.len() == k_values@.len() * c_values@.len(),
        forall|i: int, j: int|
            0 <= i < k_values@.len() && 0 <= j < c_values@.len() ==> grid@[grid_index(
                i,
                j,
                c_values@.len() as int,
            )] == (k_values@[i], c_values@[j]),
{
    let rows = k_values.len();
    let columns = c_values.len();
    let mut grid: Vec<(u64, u64)> = Vec::new();
    assert(0 * columns == 0);
    for i in 0..rows
        invariant
            rows == k_values@.len(),
            columns == c_values@.len(),
            grid@.len() == i * columns,
            forall|a: int, b: int|
                0 <= a < i && 0 <= b < columns ==> grid@[grid_index(a, b, columns as int)] == (
                    k_values@[a],
                    c_values@[b],
                ),
    {
        let k = k_values[i];
        for j in 0..columns
            invariant
                rows == k_values@.len(),
                columns == c_values@.len(),
                i < rows,
                k == k_values@[i as int],
                grid@.len() == i * columns + j,
                forall|a: int, b: int|
                    0 <= a < i && 0 <= b < columns ==> grid@[grid_index(a, b, columns as int)] == (
                        k_values@[a],
                        c_values@[b],
                    ),
                forall|b: int|
                    0 <= b < j ==> grid@[grid_index(i as int, b, columns as int)] == (
                        k_values@[i as int],
                        c_values@[b],
                    ),
        {
            proof {
                lemma_grid_index_bounds(i as int, j as int, rows as int, columns as int);
            }
            grid.push((k, c_values[j]));
            proof {
                assert forall|a: int, b: int|
                    0 <= a < i && 0 <= b < columns implies grid@[grid_index(
                    a,
                    b,
                    columns as int,
                )] == (k_values@[a], c_values@[b]) by {
                    lemma_grid_index_bounds(a, b, i as int, columns as int);
                }
            }
        }
        proof {
            assert((i + 1) * columns == i * columns + columns) by (nonlinear_arith);
        }
    }
    grid
}

} // verus!
