//! The five by five frame of lights.

use vstd::prelude::*;

verus! {

/// One image for the display: five rows of five cells, a cell being lit
/// where it holds a value other than 0.
#[derive(Clone, Copy, Debug, PartialEq, Eq)]
pub struct Frame {
    pub cells: [[u8; 5]; 5],
}

impl Frame {
    /// The value of the cell at `row` and `col`.
    pub open spec fn at(&self, row: int, col: int) -> u8 {
        self.cells[row][col]
    }

    /// The cell at `row` and `col` holds 1 and every other cell holds 0.
    pub open spec fn only_lit(&self, row: int, col: int) -> bool {
        forall|i: int, j: int|
            0 <= i < 5 && 0 <= j < 5 ==> #[trigger] self.at(i, j) == (if i == row && j == col {
                1u8
            } else {
                0u8
            })
    }

    /// A frame with the one cell at `row` and `col` lit.
    pub fn single(row: usize, col: usize) -> (frame: Frame)
        requires
            row < 5,
            col < 5,
        ensures
            frame.only_lit(row as int, col as int),
    {
        let mut cells = [[0u8; 5]; 5];
        cells[row][col] = 1;
        Frame { cells }
    }

    /// Whether the cell at `row` and `col` is lit.
    pub fn is_lit(&self, row: usize, col: usize) -> (lit: bool)
        requires
            row < 5,
            col < 5,
        ensures
            lit == (self.at(row as int, col as int) != 0),
    {
        self.cells[row][col] != 0
    }
}

/// A frame is determined by its one lit cell: two frames with the same
/// single lit cell are equal.
pub proof fn lemma_single_frame_unique(a: Frame, b: Frame, row: int, col: int)
    requires
        0 <= row < 5,
        0 <= col < 5,
        a.only_lit(row, col),
        b.only_lit(row, col),
    ensures
        a == b,
{
    assert forall|i: int| 0 <= i < 5 implies a.cells[i] == b.cells[i] by {
        assert forall|j: int| 0 <= j < 5 implies a.cells[i][j] == b.cells[i][j] by {
            assert(a.at(i, j) == b.at(i, j));
        }
        assert(a.cells[i] =~= b.cells[i]);
    }
    assert(a.cells =~= b.cells);
}

} // verus!
