//! A precomputed grid topology table: the edge classification of every cell
//! of a fixed grid, built once in index order, so a simulation's
//! boundary-condition pass does not recompute the classification per cell.

use crate::edges::{
    check_edges, col_of, dims_valid, edge_flags, index_valid, lemma_row_col_bounds, row_of,
    spec_check_edges, GridError,
};
use vstd::prelude::*;

verus! {

/// An immutable table holding, for every cell of a `width` x `height`
/// row-major grid, the cell's four edge flags `(left, right, top, bottom)`,
/// stored at the cell's own linear index.
pub struct GridTopology {
    width: i32,
    height: i32,
    flags: Vec<(bool, bool, bool, bool)>,
}

impl GridTopology {
    /// Width the table was built for.
    pub closed spec fn spec_width(&self) -> int {
        self.width as int
    }

    /// Height the table was built for.
    pub closed spec fn spec_height(&self) -> int {
        self.height as int
    }

    /// Well-formedness: the dimensions describe a real grid whose cell count
    /// is representable in the classifier's index type, and the table holds
    /// one entry per cell, equal to that cell's edge flags.
    pub closed spec fn wf(&self) -> bool {
        &&& dims_valid(self.spec_width(), self.spec_height())
        &&& self.spec_width() * self.spec_height() <= i32::MAX as int
        &&& self.flags@.len() == self.spec_width() * self.spec_height()
        &&& forall|i: int|
            0 <= i < self.flags@.len() ==> self.flags@[i] == edge_flags(
                i,
                self.spec_width(),
                self.spec_height(),
            )
    }

    /// Builds the table by classifying every cell in index order, exactly as
    /// `check_edges` classifies it. Non-positive dimensions are rejected with
    /// `InvalidDimensions`, as the classifier rejects them.
    ///
    /// The cell count must fit the classifier's index type: that is a machine
    /// limit, not a rule of the grid.
    pub fn new(width: i32, height: i32) -> (r: Result<GridTopology, GridError>)
        requires
            dims_valid(width as int, height as int) ==> (width as int) * (height as int)
                <= i32::MAX as int,
        ensures
            !dims_valid(width as int, height as int) ==> r == Err::<GridTopology, GridError>(
                GridError::InvalidDimensions,
            ),
            dims_valid(width as int, height as int) ==> {
                &&& r is Ok
                &&& r.unwrap().wf()
                &&& r.unwrap().spec_width() == width as int
                &&& r.unwrap().spec_height() == height as int
            },
    {
        if width <= 0 || height <= 0 {
            return Err(GridError::InvalidDimensions);
        }
        let total: i32 = width * height;
        let mut flags: Vec<(bool, bool, bool, bool)> = Vec::new();
        let mut i: i32 = 0;
        while i < total
            invariant
                0 < width,
                0 < height,
                total as int == (width as int) * (height as int),
                0 <= i <= total,
                flags@.len() == i as int,
                forall|j: int|
                    0 <= j < i as int ==> flags@[j] == edge_flags(j, width as int, height as int),
            decreases total - i,
        {
            let f = match check_edges(i, width, height) {
                Ok(f) => f,
                Err(_) => (false, false, false, false),
            };
            flags.push(f);
            i = i + 1;
        }
        Ok(GridTopology { width, height, flags })
    }

    /// Width the table was built for.
    pub fn width(&self) -> (w: i32)
        ensures
            w as int == self.spec_width(),
    {
        self.width
    }

    /// Height the table was built for.
    pub fn height(&self) -> (h: i32)
        ensures
            h as int == self.spec_height(),
    {
        self.height
    }

    /// The edge flags of the cell named by `index`: identical to what
    /// `check_edges(index, width, height)` returns for this table's
    /// dimensions, down to the error for an index outside the grid.
    pub fn flags_of(&self, index: i32) -> (r: Result<(bool, bool, bool, bool), GridError>)
        requires
            self.wf(),
        ensures
            r == spec_check_edges(index as int, self.spec_width(), self.spec_height()),
    {
        if index < 0 {
            return Err(GridError::IndexOutOfBounds);
        }
        if index as usize >= self.flags.len() {
            return Err(GridError::IndexOutOfBounds);
        }
        Ok(self.flags[index as usize])
    }

    /// The row and column of the cell named by `index`, or `IndexOutOfBounds`
    /// for an index that names no cell of this table's grid.
    pub fn row_col(&self, index: i32) -> (r: Result<(i32, i32), GridError>)
        requires
            self.wf(),
        ensures
            !index_valid(index as int, self.spec_width(), self.spec_height()) ==> r == Err::<
                (i32, i32),
                GridError,
            >(GridError::IndexOutOfBounds),
            index_valid(index as int, self.spec_width(), self.spec_height()) ==> {
                &&& r is Ok
                &&& r.unwrap().0 as int == row_of(index as int, self.spec_width())
                &&& r.unwrap().1 as int == col_of(index as int, self.spec_width())
            },
    {
        if index < 0 {
            return Err(GridError::IndexOutOfBounds);
        }
        if index as usize >= self.flags.len() {
            return Err(GridError::IndexOutOfBounds);
        }
        proof {
            lemma_row_col_bounds(index as int, self.spec_width(), self.spec_height());
        }
        let w: u32 = self.width as u32;
        let row: u32 = (index as u32) / w;
        let col: u32 = (index as u32) % w;
        Ok((row as i32, col as i32))
    }
}

} // verus!
