use vstd::prelude::*;

verus! {

/// The largest number of vertices a grid may have: every vertex must be
/// addressable by a `u32` index.
pub const MAX_VERTICES: u64 = 0xffff_ffff;

/// Why a grid could not be laid out.
#[derive(Clone, Copy, Debug, PartialEq, Eq, Structural)]
pub enum GridError {
    /// The grid is less than two vertices wide, so it has no cell.
    WidthTooSmall,
    /// The grid is less than two vertices high, so it has no cell.
    HeightTooSmall,
    /// The grid has more vertices than a `u32` index can address.
    TooManyVertices,
}

/// The error, if any, that a `width` by `height` grid is refused with.
pub open spec fn grid_error(width: int, height: int) -> Option<GridError> {
    if width < 2 {
        Some(GridError::WidthTooSmall)
    } else if height < 2 {
        Some(GridError::HeightTooSmall)
    } else if width * height > MAX_VERTICES {
        Some(GridError::TooManyVertices)
    } else {
        None
    }
}

/// The grid coordinates sampled for vertex `i`: row-major over `width`,
/// the second coordinate taken modulo `height`.
pub open spec fn sample_point_of(width: int, height: int, i: int) -> (int, int) {
    (i / width, i % height)
}

/// The position, in the triangle list, of corner `k` of cell `(x, y)`.
pub open spec fn index_slot(width: int, x: int, y: int, k: int) -> int {
    6 * (y * (width - 1) + x) + k
}

/// Corner `k` (0 to 5) of the two triangles of cell `(x, y)`: first
/// top-left, top-right, bottom-left, then top-right, bottom-right, bottom-left.
pub open spec fn cell_corner(width: int, x: int, y: int, k: int) -> int {
    let tl = y * width + x;
    let tr = y * width + x + 1;
    let bl = (y + 1) * width + x;
    let br = (y + 1) * width + x + 1;
    if k == 0 {
        tl
    } else if k == 1 {
        tr
    } else if k == 2 {
        bl
    } else if k == 3 {
        tr
    } else if k == 4 {
        br
    } else {
        bl
    }
}

/// Cells are numbered row by row: a cell of an earlier row, or an earlier
/// cell of the same row, has a smaller number.
proof fn lemma_cell_order(width: int, xx: int, yy: int, x: int, y: int)
    requires
        0 <= xx < width - 1,
        0 <= x,
        0 <= yy,
        yy < y || (yy == y && xx < x),
    ensures
        yy * (width - 1) + xx < y * (width - 1) + x,
{
    if yy < y {
        assert(yy * (width - 1) + (width - 1) <= y * (width - 1)) by (nonlinear_arith)
            requires
                yy + 1 <= y,
                width - 1 >= 0,
        ;
    }
}

/// The four corners of cell `(x, y)` are vertices of the grid.
proof fn lemma_cell_corners_fit(width: int, height: int, x: int, y: int)
    requires
        2 <= width,
        2 <= height,
        0 <= x < width - 1,
        0 <= y < height - 1,
    ensures
        0 <= y * width,
        y * width + width == (y + 1) * width,
        (y + 1) * width + x + 1 < width * height,
{
    assert(0 <= y * width) by (nonlinear_arith)
        requires
            0 <= y,
            0 <= width,
    ;
    assert(y * width + width == (y + 1) * width) by (nonlinear_arith);
    assert((y + 1) * width <= (height - 1) * width) by (nonlinear_arith)
        requires
            y + 1 <= height - 1,
            0 <= width,
    ;
    assert((height - 1) * width == width * height - width) by (nonlinear_arith);
}

/// Every corner of every cell is a vertex of the grid, so the triangle list
/// refers only to vertices that the vertex pass produced.
pub proof fn lemma_corners_in_grid(width: int, height: int, x: int, y: int, k: int)
    requires
        grid_error(width, height) is None,
        0 <= x < width - 1,
        0 <= y < height - 1,
        0 <= k < 6,
    ensures
        0 <= cell_corner(width, x, y, k) < width * height,
        0 <= index_slot(width, x, y, k) < 6 * ((width - 1) * (height - 1)),
{
    lemma_cell_corners_fit(width, height, x, y);
    lemma_cell_order(width, x, y, 0, height - 1);
    assert((height - 1) * (width - 1) == (width - 1) * (height - 1)) by (nonlinear_arith);
    assert(0 <= y * (width - 1)) by (nonlinear_arith)
        requires
            0 <= y,
            1 <= width,
    ;
}

/// A validated rectangular sampling grid of `width * height` vertices.
pub struct GridLayout {
    width: usize,
    height: usize,
}

impl GridLayout {
    pub closed spec fn spec_width(&self) -> int {
        self.width as int
    }

    pub closed spec fn spec_height(&self) -> int {
        self.height as int
    }

    /// Both sides are at least two and the vertex count fits a `u32` index.
    pub open spec fn wf(&self) -> bool {
        grid_error(self.spec_width(), self.spec_height()).is_none()
    }

    /// Lays out a `width` by `height` grid, refusing a grid without cells
    /// or one too large to index.
    pub fn new(width: usize, height: usize) -> (r: Result<GridLayout, GridError>)
        ensures
            match grid_error(width as int, height as int) {
                Some(e) => r == Err::<GridLayout, GridError>(e),
                None => r is Ok && r->Ok_0.wf() && r->Ok_0.spec_width() == width
                    && r->Ok_0.spec_height() == height,
            },
    {
        if width < 2 {
            return Err(GridError::WidthTooSmall);
        }
        if height < 2 {
            return Err(GridError::HeightTooSmall);
        }
        match width.checked_mul(height) {
            Some(n) => {
                if n as u64 > MAX_VERTICES {
                    Err(GridError::TooManyVertices)
                } else {
                    Ok(GridLayout { width, height })
                }
            },
            None => {
                proof {
                    assert(width * height > usize::MAX);
                    assert(usize::MAX >= u32::MAX);
                }
                Err(GridError::TooManyVertices)
            },
        }
    }

    pub fn width(&self) -> (r: usize)
        ensures
            r == self.spec_width(),
    {
        self.width
    }

    pub fn height(&self) -> (r: usize)
        ensures
            r == self.spec_height(),
    {
        self.height
    }

    /// The number of vertices before any duplication.
    pub fn vertex_count(&self) -> (r: usize)
        requires
            self.wf(),
        ensures
            r == self.spec_width() * self.spec_height(),
    {
        self.width * self.height
    }

    /// The grid coordinates sampled for vertex `i`.
    pub fn sample_point(&self, i: usize) -> (r: (usize, usize))
        requires
            self.wf(),
            i < self.spec_width() * self.spec_height(),
        ensures
            (r.0 as int, r.1 as int) == sample_point_of(self.spec_width(), self.spec_height(), i as int),
    {
        (i / self.width, i % self.height)
    }

    /// The grid coordinates sampled for every vertex, in vertex order.
    pub fn sample_points(&self) -> (r: Vec<(usize, usize)>)
        requires
            self.wf(),
        ensures
            r@.len() == self.spec_width() * self.spec_height(),
            forall|i: int|
                0 <= i < r@.len() ==> (r@[i].0 as int, r@[i].1 as int) == #[trigger] sample_point_of(
                    self.spec_width(),
                    self.spec_height(),
                    i,
                ),
    {
        let n = self.vertex_count();
        let mut r: Vec<(usize, usize)> = Vec::new();
        let mut i: usize = 0;
        while i < n
            invariant
                self.wf(),
                n == self.spec_width() * self.spec_height(),
                i <= n,
                r@.len() == i,
                forall|j: int|
                    0 <= j < i ==> (r@[j].0 as int, r@[j].1 as int) == #[trigger] sample_point_of(
                        self.spec_width(),
                        self.spec_height(),
                        j,
                    ),
            decreases n - i,
        {
            let p = self.sample_point(i);
            r.push(p);
            i = i + 1;
        }
        r
    }

    /// The triangle list of the grid: two triangles per cell, cells row by
    /// row, with the winding of `cell_corner`.
    pub fn triangle_indices(&self) -> (r: Vec<u32>)
        requires
            self.wf(),
        ensures
            r@.len() == 6 * ((self.spec_width() - 1) * (self.spec_height() - 1)),
            forall|x: int, y: int, k: int|
                0 <= x < self.spec_width() - 1 && 0 <= y < self.spec_height() - 1 && 0 <= k < 6
                    ==> r@[#[trigger] index_slot(self.spec_width(), x, y, k)] as int == cell_corner(
                    self.spec_width(),
                    x,
                    y,
                    k,
                ),
    {
        let w = self.width;
        let h = self.height;
        let ghost wi = w as int;
        let ghost hi = h as int;
        let mut r: Vec<u32> = Vec::new();
        let mut y: usize = 0;
        while y < h - 1
            invariant
                self.wf(),
                w == self.spec_width(),
                h == self.spec_height(),
                wi == w,
                hi == h,
                0 <= y <= h - 1,
                r@.len() == 6 * (y * (wi - 1)),
                forall|xx: int, yy: int, k: int|
                    0 <= xx < wi - 1 && 0 <= yy < hi - 1 && 0 <= k < 6 && yy < y
                        ==> r@[#[trigger] index_slot(wi, xx, yy, k)] as int == cell_corner(
                        wi,
                        xx,
                        yy,
                        k,
                    ),
            decreases h - y,
        {
            let mut x: usize = 0;
            while x < w - 1
                invariant
                    self.wf(),
                    w == self.spec_width(),
                    h == self.spec_height(),
                    wi == w,
                    hi == h,
                    0 <= y < h - 1,
                    0 <= x <= w - 1,
                    r@.len() == 6 * (y * (wi - 1) + x),
                    forall|xx: int, yy: int, k: int|
                        0 <= xx < wi - 1 && 0 <= yy < hi - 1 && 0 <= k < 6 && (yy < y || (yy == y
                            && xx < x)) ==> r@[#[trigger] index_slot(wi, xx, yy, k)] as int
                            == cell_corner(wi, xx, yy, k),
                decreases w - x,
            {
                proof {
                    lemma_cell_corners_fit(wi, hi, x as int, y as int);
                }
                let top = y * w + x;
                let bottom = top + w;
                let tl = top as u32;
                let tr = (top + 1) as u32;
                let bl = bottom as u32;
                let br = (bottom + 1) as u32;
                let ghost prev = r@;
                r.push(tl);
                r.push(tr);
                r.push(bl);
                r.push(tr);
                r.push(br);
                r.push(bl);
                proof {
                    let c = y * (wi - 1) + x;
                    assert(r@ == prev.push(tl).push(tr).push(bl).push(tr).push(br).push(bl));
                    assert forall|xx: int, yy: int, k: int|
                        0 <= xx < wi - 1 && 0 <= yy < hi - 1 && 0 <= k < 6 && (yy < y || (yy
                            == y && xx < x + 1)) implies r@[#[trigger] index_slot(wi, xx, yy, k)] as int
                        == cell_corner(wi, xx, yy, k) by {
                        if yy == y && xx == x {
                            assert(index_slot(wi, xx, yy, k) == 6 * c + k);
                        } else {
                            lemma_cell_order(wi, xx, yy, x as int, y as int);
                            assert(index_slot(wi, xx, yy, k) < prev.len());
                        }
                    }
                }
                x = x + 1;
            }
            proof {
                assert(y * (wi - 1) + (wi - 1) == (y + 1) * (wi - 1)) by (nonlinear_arith);
            }
            y = y + 1;
        }
        proof {
            assert(y * (wi - 1) == (wi - 1) * (hi - 1)) by (nonlinear_arith)
                requires
                    y == hi - 1,
            ;
        }
        r
    }

} // impl GridLayout

} // verus!
