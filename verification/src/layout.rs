//! Storage layout of weight matrices: column-major, as one flat vector.
//!
//! A matrix from a population of `cols` units to one of `rows` units keeps the
//! synapse from presynaptic unit `col` onto postsynaptic unit `row` at offset
//! `col * rows + row`.

use vstd::prelude::*;

verus! {

/// Offset of entry (`row`, `col`) in a matrix of `rows` rows.
pub open spec fn entry_index(row: int, col: int, rows: int) -> int {
    col * rows + row
}

/// Offsets stay inside the storage, and row and column can be read back from
/// an offset: the column is the quotient by the number of rows, the row the
/// remainder.
pub proof fn lemma_entry_index(row: int, col: int, rows: int, cols: int)
    requires
        0 <= row < rows,
        0 <= col < cols,
    ensures
        0 <= entry_index(row, col, rows) < rows * cols,
        entry_index(row, col, rows) / rows == col,
        entry_index(row, col, rows) % rows == row,
{
    vstd::arithmetic::div_mod::lemma_fundamental_div_mod_converse(
        entry_index(row, col, rows),
        rows,
        col,
        row,
    );
    assert(0 <= col * rows) by (nonlinear_arith)
        requires
            0 <= col,
            0 < rows,
    ;
    assert(col * rows + rows <= rows * cols) by (nonlinear_arith)
        requires
            0 <= col < cols,
            0 < rows,
    ;
}

/// Every offset inside the storage belongs to exactly one entry.
pub proof fn lemma_offset_is_entry(k: int, rows: int, cols: int)
    requires
        0 <= k < rows * cols,
        0 < rows,
    ensures
        0 <= k % rows < rows,
        0 <= k / rows < cols,
        entry_index(k % rows, k / rows, rows) == k,
{
    vstd::arithmetic::div_mod::lemma_fundamental_div_mod(k, rows);
    let q = k / rows;
    assert(0 <= q < cols) by (nonlinear_arith)
        requires
            0 <= k < rows * cols,
            0 < rows,
            k == rows * q + k % rows,
            0 <= k % rows < rows,
    ;
    assert(rows * q == q * rows) by (nonlinear_arith);
}

/// Two entries share an offset only if they are the same entry.
pub proof fn lemma_entry_index_injective(r1: int, c1: int, r2: int, c2: int, rows: int)
    requires
        0 <= r1 < rows,
        0 <= r2 < rows,
        0 <= c1,
        0 <= c2,
        entry_index(r1, c1, rows) == entry_index(r2, c2, rows),
    ensures
        r1 == r2,
        c1 == c2,
{
    lemma_entry_index(r1, c1, rows, c1 + 1);
    lemma_entry_index(r2, c2, rows, c2 + 1);
}

/// Offset of entry (`row`, `col`) in the storage of a `rows` by `cols` matrix.
pub fn entry_offset(row: usize, col: usize, rows: usize, cols: usize) -> (k: usize)
    requires
        row < rows,
        col < cols,
        rows * cols <= usize::MAX,
    ensures
        k == entry_index(row as int, col as int, rows as int),
        k < rows * cols,
{
    proof {
        lemma_entry_index(row as int, col as int, rows as int, cols as int);
    }
    col * rows + row
}

/// The main diagonal of a square matrix of `n` rows: entry `i` of the result
/// is entry (`i`, `i`) of the matrix.
pub fn diagonal<T: Copy>(matrix: &Vec<T>, n: usize) -> (diag: Vec<T>)
    requires
        matrix@.len() == n * n,
    ensures
        diag@.len() == n,
        forall|i: int| 0 <= i < n ==> #[trigger] diag@[i] == matrix@[entry_index(i, i, n as int)],
{
    let mut diag: Vec<T> = Vec::new();
    let mut i: usize = 0;
    assert(n * n <= usize::MAX) by {
        assert(matrix@.len() == matrix.len());
    }
    while i < n
        invariant
            i <= n,
            n * n <= usize::MAX,
            matrix@.len() == n * n,
            diag@.len() == i,
            forall|j: int|
                0 <= j < i ==> #[trigger] diag@[j] == matrix@[entry_index(j, j, n as int)],
        decreases n - i,
    {
        let k: usize = entry_offset(i, i, n, n);
        diag.push(matrix[k]);
        i = i + 1;
    }
    diag
}

} // verus!
