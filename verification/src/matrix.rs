//! The read-only view over an encoded bit matrix: a rectangular boolean
//! grid addressed (x, y), immutable after construction.

use vstd::prelude::*;
use crate::engine::{engine_matrix_width, engine_matrix_height, engine_matrix_get, matrix_dims,
    matrix_bits};

verus! {

/// A read-only rectangular boolean grid, addressed `(x, y)` with `x` in
/// `[0, width)` and `y` in `[0, height)`.
#[derive(Debug)]
pub struct MatrixView {
    width: u32,
    height: u32,
    rows: Vec<Vec<bool>>,
}

impl MatrixView {
    /// The grid is rectangular: one row per `y`, one cell per `x`.
    pub closed spec fn wf(self) -> bool {
        &&& self.rows@.len() == self.height as nat
        &&& forall|y: int| 0 <= y < self.rows@.len() ==> (#[trigger] self.rows@[y])@.len()
            == self.width as nat
    }

    pub closed spec fn spec_width(self) -> u32 {
        self.width
    }

    pub closed spec fn spec_height(self) -> u32 {
        self.height
    }

    /// The cell at `(x, y)`.
    pub closed spec fn spec_get(self, x: int, y: int) -> bool {
        self.rows@[y]@[x]
    }

    pub fn width(&self) -> (w: u32)
        ensures
            w == self.spec_width(),
    {
        self.width
    }

    pub fn height(&self) -> (h: u32)
        ensures
            h == self.spec_height(),
    {
        self.height
    }

    /// Reads one cell; the coordinate must be inside the grid.
    pub fn get(&self, x: u32, y: u32) -> (b: bool)
        requires
            self.wf(),
            x < self.spec_width(),
            y < self.spec_height(),
        ensures
            b == self.spec_get(x as int, y as int),
    {
        let row = &self.rows[y as usize];
        row[x as usize]
    }

    /// The whole grid, row by row: `data()[y][x]` is the cell at `(x, y)`.
    pub fn data(&self) -> (d: Vec<Vec<bool>>)
        requires
            self.wf(),
        ensures
            d@.len() == self.spec_height() as nat,
            forall|y: int| 0 <= y < d@.len() ==> (#[trigger] d@[y])@.len()
                == self.spec_width() as nat,
            forall|y: int, x: int|
                0 <= y < d@.len() && 0 <= x < d@[y]@.len() ==> (#[trigger] d@[y]@[x])
                    == self.spec_get(x, y),
    {
        let mut d: Vec<Vec<bool>> = Vec::new();
        let h = self.height;
        let w = self.width;
        let mut y: u32 = 0;
        while y < h
            invariant
                self.wf(),
                w == self.spec_width(),
                h == self.spec_height(),
                y <= h,
                d@.len() == y as nat,
                forall|j: int| 0 <= j < d@.len() ==> (#[trigger] d@[j])@.len() == w as nat,
                forall|j: int, x: int|
                    0 <= j < d@.len() && 0 <= x < w ==> (#[trigger] d@[j]@[x]) == self.spec_get(
                        x,
                        j,
                    ),
            decreases h - y,
        {
            let mut row: Vec<bool> = Vec::new();
            let mut x: u32 = 0;
            while x < w
                invariant
                    self.wf(),
                    w == self.spec_width(),
                    h == self.spec_height(),
                    y < h,
                    x <= w,
                    row@.len() == x as nat,
                    forall|i: int| 0 <= i < row@.len() ==> (#[trigger] row@[i]) == self.spec_get(
                        i,
                        y as int,
                    ),
                decreases w - x,
            {
                row.push(self.get(x, y));
                x = x + 1;
            }
            d.push(row);
            y = y + 1;
        }
        d
    }

    /// Wraps the engine's encoded matrix into the read-only view, cell by
    /// cell.
    pub fn from_engine(m: &rxing::common::BitMatrix) -> (r: MatrixView)
        ensures
            r.wf(),
            r.spec_width() as nat == matrix_dims(*m).0,
            r.spec_height() as nat == matrix_dims(*m).1,
            forall|x: int, y: int|
                0 <= x < r.spec_width() && 0 <= y < r.spec_height() ==> #[trigger] r.spec_get(x, y)
                    == matrix_bits(*m)[(x, y)],
    {
        let w = engine_matrix_width(m);
        let h = engine_matrix_height(m);
        let mut rows: Vec<Vec<bool>> = Vec::new();
        let mut y: u32 = 0;
        while y < h
            invariant
                w as nat == matrix_dims(*m).0,
                h as nat == matrix_dims(*m).1,
                y <= h,
                rows@.len() == y as nat,
                forall|j: int| 0 <= j < rows@.len() ==> (#[trigger] rows@[j])@.len() == w as nat,
                forall|j: int, x: int|
                    0 <= j < rows@.len() && 0 <= x < w ==> (#[trigger] rows@[j]@[x])
                        == matrix_bits(*m)[(x, j)],
            decreases h - y,
        {
            let mut row: Vec<bool> = Vec::new();
            let mut x: u32 = 0;
            while x < w
                invariant
                    w as nat == matrix_dims(*m).0,
                    h as nat == matrix_dims(*m).1,
                    y < h,
                    x <= w,
                    row@.len() == x as nat,
                    forall|i: int| 0 <= i < row@.len() ==> (#[trigger] row@[i]) == matrix_bits(
                        *m,
                    )[(i, y as int)],
                decreases w - x,
            {
                row.push(engine_matrix_get(m, x, y));
                x = x + 1;
            }
            rows.push(row);
            y = y + 1;
        }
        MatrixView { width: w, height: h, rows }
    }
}

} // verus!
