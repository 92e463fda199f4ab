//! The double-buffered automaton grid and the rule that advances it.
//!
//! `Grid` is the byte-per-cell model of one generation image: a cell is live
//! exactly when its byte is non-zero, and a freshly computed cell is written
//! as 255 (live) or 0 (dead). `GenerationBuffer` pairs the `current` grid,
//! which always holds a fully resolved generation, with the `next` grid that
//! a compute pass overwrites; a copy pass commits `next` into `current`.
use vstd::prelude::*;

use crate::raster::ImageSource;
use crate::raster::Raster;

verus! {

/// The byte `seed` puts at cell `(x, y)` of the first generation: the
/// raster's pixel where the raster covers the cell, dead everywhere else.
pub open spec fn seed_cell(source: ImageSource, x: int, y: int) -> u8 {
    match source {
        ImageSource::Pixels(r) => {
            if 0 <= x < r.width && 0 <= y < r.height {
                r.pixel(x, y)
            } else {
                0u8
            }
        },
        ImageSource::Empty { .. } => 0u8,
    }
}

/// The seed's dimensions must not exceed the buffer's.
pub open spec fn seed_fits(source: ImageSource, buf: GenerationBuffer) -> bool {
    match source {
        ImageSource::Pixels(r) => r.wf() && r.width <= buf.width() && r.height <= buf.height(),
        ImageSource::Empty { width, height } => width <= buf.width() && height <= buf.height(),
    }
}

/// Converts a liveness flag into its contribution to a neighbor count.
pub open spec fn b2i(b: bool) -> int {
    if b {
        1
    } else {
        0
    }
}

/// The automaton rule: a cell is live in the next generation exactly when it
/// was live with two or three live neighbors, or dead with exactly three.
pub open spec fn rule(alive: bool, neighbors: int) -> bool {
    (alive && (neighbors == 2 || neighbors == 3)) || (!alive && neighbors == 3)
}

/// One generation image: `width * height` single-channel 8-bit cells in
/// row-major order.
pub struct Grid {
    pub width: usize,
    pub height: usize,
    pub cells: Vec<u8>,
}

/// The byte of cell `(x, y)` in a row-major sequence of rows of width `w`.
pub open spec fn cell_in(s: Seq<u8>, w: int, x: int, y: int) -> u8 {
    s[y * w + x]
}

/// The row-major index of an in-bounds cell stays inside the grid's storage.
proof fn lemma_index_bound(x: int, y: int, w: int, h: int)
    requires
        0 <= x < w,
        0 <= y < h,
    ensures
        0 <= y * w + x < h * w,
{
    assert(y * w + x < h * w) by (nonlinear_arith)
        requires
            0 <= x < w,
            0 <= y < h,
    ;
    assert(0 <= y * w) by (nonlinear_arith)
        requires
            0 <= y,
            0 < w,
    ;
}

/// A cell of an earlier row sits strictly below the next write position.
proof fn lemma_row_major_order(x: int, y: int, xx: int, yy: int, w: int)
    requires
        0 <= xx < w,
        0 <= x,
        0 <= yy,
        yy < y || (yy == y && xx < x),
    ensures
        0 <= yy * w + xx < y * w + x,
{
    assert(yy * w + xx < y * w + x) by (nonlinear_arith)
        requires
            0 <= xx < w,
            0 <= x,
            0 <= yy,
            yy < y || (yy == y && xx < x),
    ;
    assert(0 <= yy * w) by (nonlinear_arith)
        requires
            0 <= yy,
            0 < w,
    ;
}

impl Grid {
    /// The storage holds exactly one byte per cell.
    pub open spec fn wf(self) -> bool {
        self.cells.len() == self.width * self.height
    }

    /// The byte stored for the cell at column `x`, row `y`.
    pub open spec fn cell(self, x: int, y: int) -> u8 {
        cell_in(self.cells@, self.width as int, x, y)
    }

    pub open spec fn in_bounds(self, x: int, y: int) -> bool {
        0 <= x < self.width && 0 <= y < self.height
    }

    /// A cell is live when it is in bounds and its byte is non-zero; every
    /// position outside the grid counts as dead.
    pub open spec fn live_at(self, x: int, y: int) -> bool {
        self.in_bounds(x, y) && self.cell(x, y) != 0
    }

    /// How many of the eight surrounding cells are live.
    pub open spec fn neighbor_count(self, x: int, y: int) -> int {
        b2i(self.live_at(x - 1, y - 1)) + b2i(self.live_at(x, y - 1)) + b2i(
            self.live_at(x + 1, y - 1),
        ) + b2i(self.live_at(x - 1, y)) + b2i(self.live_at(x + 1, y)) + b2i(
            self.live_at(x - 1, y + 1),
        ) + b2i(self.live_at(x, y + 1)) + b2i(self.live_at(x + 1, y + 1))
    }

    /// The byte the rule writes for cell `(x, y)` of the next generation.
    pub open spec fn next_cell(self, x: int, y: int) -> u8 {
        if rule(self.live_at(x, y), self.neighbor_count(x, y)) {
            255u8
        } else {
            0u8
        }
    }

    /// Builds a grid from raw row-major cell bytes.
    pub fn from_cells(width: usize, height: usize, cells: Vec<u8>) -> (r: Grid)
        requires
            cells@.len() == width * height,
        ensures
            r.wf(),
            r.width == width,
            r.height == height,
            r.cells@ == cells@,
    {
        Grid { width, height, cells }
    }

    /// Builds a grid with every cell set to `byte`.
    pub fn filled(width: usize, height: usize, byte: u8) -> (r: Grid)
        requires
            width * height <= usize::MAX,
        ensures
            r.wf(),
            r.width == width,
            r.height == height,
            forall|i: int| 0 <= i < r.cells@.len() ==> r.cells@[i] == byte,
    {
        let mut cells: Vec<u8> = Vec::new();
        let mut y: usize = 0;
        while y < height
            invariant
                y <= height,
                width * height <= usize::MAX,
                cells@.len() == y * width,
                forall|i: int| 0 <= i < cells@.len() ==> cells@[i] == byte,
            decreases height - y,
        {
            let mut x: usize = 0;
            proof {
                assert(y * width + width <= height * width) by (nonlinear_arith)
                    requires
                        y < height,
                        0 <= width,
                ;
                assert(height * width == width * height) by (nonlinear_arith);
            }
            while x < width
                invariant
                    x <= width,
                    cells@.len() == y * width + x,
                    y * width + width <= usize::MAX,
                    forall|i: int| 0 <= i < cells@.len() ==> cells@[i] == byte,
                decreases width - x,
            {
                cells.push(byte);
                x = x + 1;
            }
            y = y + 1;
            proof {
                assert(y * width == (y - 1) * width + width) by (nonlinear_arith);
            }
        }
        proof {
            assert(height * width == width * height) by (nonlinear_arith);
        }
        Grid { width, height, cells }
    }

    /// Reads whether the cell at `(x, y)` is live; positions outside the
    /// grid read as dead.
    pub fn cell_live(&self, x: usize, y: usize) -> (b: bool)
        requires
            self.wf(),
        ensures
            b == self.live_at(x as int, y as int),
    {
        if x < self.width && y < self.height {
            proof {
                lemma_index_bound(x as int, y as int, self.width as int, self.height as int);
                assert(self.height * self.width == self.width * self.height) by (nonlinear_arith);
            }
            let idx: usize = y * self.width + x;
            self.cells[idx] != 0
        } else {
            false
        }
    }

    /// Counts the live cells among the eight neighbors of `(x, y)`.
    pub fn live_neighbors(&self, x: usize, y: usize) -> (n: u8)
        requires
            self.wf(),
            x < self.width,
            y < self.height,
        ensures
            n as int == self.neighbor_count(x as int, y as int),
    {
        let mut n: u8 = 0;
        if x > 0 && y > 0 && self.cell_live(x - 1, y - 1) {
            n = n + 1;
        }
        if y > 0 && self.cell_live(x, y - 1) {
            n = n + 1;
        }
        if y > 0 && self.cell_live(x + 1, y - 1) {
            n = n + 1;
        }
        if x > 0 && self.cell_live(x - 1, y) {
            n = n + 1;
        }
        if self.cell_live(x + 1, y) {
            n = n + 1;
        }
        if x > 0 && self.cell_live(x - 1, y + 1) {
            n = n + 1;
        }
        if self.cell_live(x, y + 1) {
            n = n + 1;
        }
        if self.cell_live(x + 1, y + 1) {
            n = n + 1;
        }
        n
    }

    /// Advances one generation: every cell of the result is what the rule
    /// gives for the corresponding cell of `self`.
    pub fn step(&self) -> (r: Grid)
        requires
            self.wf(),
        ensures
            r.wf(),
            r.width == self.width,
            r.height == self.height,
            forall|x: int, y: int|
                0 <= x < self.width && 0 <= y < self.height ==> r.cell(x, y) == self.next_cell(
                    x,
                    y,
                ),
    {
        let ghost w = self.width as int;
        let mut out: Vec<u8> = Vec::new();
        let mut y: usize = 0;
        while y < self.height
            invariant
                self.wf(),
                w == self.width,
                y <= self.height,
                out@.len() == y * self.width,
                forall|xx: int, yy: int|
                    0 <= xx < self.width && 0 <= yy < y ==> #[trigger] cell_in(out@, w, xx, yy)
                        == self.next_cell(xx, yy),
            decreases self.height - y,
        {
            let mut x: usize = 0;
            proof {
                assert(y * self.width + self.width <= self.height * self.width)
                    by (nonlinear_arith)
                    requires
                        y < self.height,
                        0 <= self.width,
                ;
                assert(self.height * self.width == self.width * self.height) by (nonlinear_arith);
            }
            while x < self.width
                invariant
                    self.wf(),
                    w == self.width,
                    x <= self.width,
                    y < self.height,
                    out@.len() == y * self.width + x,
                    y * self.width + self.width <= usize::MAX,
                    forall|xx: int, yy: int|
                        0 <= xx < self.width && 0 <= yy < y ==> #[trigger] cell_in(out@, w, xx, yy)
                            == self.next_cell(xx, yy),
                    forall|xx: int|
                        0 <= xx < x ==> #[trigger] cell_in(out@, w, xx, y as int)
                            == self.next_cell(xx, y as int),
                decreases self.width - x,
            {
                let alive = self.cell_live(x, y);
                let n = self.live_neighbors(x, y);
                let byte: u8 = if (alive && (n == 2 || n == 3)) || (!alive && n == 3) {
                    255
                } else {
                    0
                };
                let ghost pre = out@;
                out.push(byte);
                proof {
                    assert forall|xx: int, yy: int|
                        0 <= xx < self.width && 0 <= yy < y implies #[trigger] cell_in(
                        out@,
                        w,
                        xx,
                        yy,
                    ) == self.next_cell(xx, yy) by {
                        lemma_row_major_order(x as int, y as int, xx, yy, w);
                        assert(cell_in(out@, w, xx, yy) == cell_in(pre, w, xx, yy));
                    }
                    assert forall|xx: int| 0 <= xx <= x implies #[trigger] cell_in(
                        out@,
                        w,
                        xx,
                        y as int,
                    ) == self.next_cell(xx, y as int) by {
                        if xx < x as int {
                            lemma_row_major_order(x as int, y as int, xx, y as int, w);
                            assert(cell_in(out@, w, xx, y as int) == cell_in(pre, w, xx, y as int));
                        } else {
                            assert(y as int * w + xx == pre.len());
                            assert(cell_in(out@, w, xx, y as int) == byte);
                        }
                    }
                }
                x = x + 1;
            }
            y = y + 1;
            proof {
                assert(y * self.width == (y - 1) * self.width + self.width) by (nonlinear_arith);
            }
        }
        let r = Grid { width: self.width, height: self.height, cells: out };
        proof {
            assert(self.height * self.width == self.width * self.height) by (nonlinear_arith);
        }
        r
    }
}

/// Copies a byte vector element by element.
fn copy_bytes(src: &Vec<u8>) -> (r: Vec<u8>)
    ensures
        r@ == src@,
{
    let mut out: Vec<u8> = Vec::new();
    let mut i: usize = 0;
    while i < src.len()
        invariant
            i <= src@.len(),
            out@ == src@.take(i as int),
        decreases src@.len() - i,
    {
        out.push(src[i]);
        proof {
            assert(out@ =~= src@.take(i + 1));
        }
        i = i + 1;
    }
    proof {
        assert(src@.take(src@.len() as int) =~= src@);
    }
    out
}

/// The double-buffered generation state: `current` is the fully resolved
/// generation the render pass samples, `next` the scratch target the compute
/// pass overwrites.
pub struct GenerationBuffer {
    pub current: Grid,
    pub next: Grid,
}

/// What a copy pass does: it commits `next` into `current` and leaves `next`
/// as it stands.
pub open spec fn copy_committed(pre: GenerationBuffer, post: GenerationBuffer) -> bool {
    &&& post.current.width == pre.current.width
    &&& post.current.height == pre.current.height
    &&& post.current.cells@ == pre.next.cells@
    &&& post.next == pre.next
}

impl GenerationBuffer {
    /// Both grids are well formed and share the same dimensions.
    pub open spec fn wf(self) -> bool {
        &&& self.current.wf()
        &&& self.next.wf()
        &&& self.current.width == self.next.width
        &&& self.current.height == self.next.height
    }

    pub open spec fn width(self) -> usize {
        self.current.width
    }

    pub open spec fn height(self) -> usize {
        self.current.height
    }

    /// Allocates both grids with every cell dead.
    pub fn allocate(width: usize, height: usize) -> (r: GenerationBuffer)
        requires
            width * height <= usize::MAX,
        ensures
            r.wf(),
            r.width() == width,
            r.height() == height,
            forall|x: int, y: int| r.current.in_bounds(x, y) ==> r.current.cell(x, y) == 0u8,
    {
        let current = Grid::filled(width, height, 0);
        let next = Grid::filled(width, height, 0);
        let r = GenerationBuffer { current, next };
        proof {
            assert forall|x: int, y: int| r.current.in_bounds(x, y) implies r.current.cell(x, y)
                == 0u8 by {
                lemma_index_bound(x, y, width as int, height as int);
                assert(r.current.height * r.current.width == r.current.width
                    * r.current.height) by (nonlinear_arith);
            }
        }
        r
    }

    /// Seeds `current` with the initial pattern, leaving `next` untouched:
    /// cells the source covers take its pixel bytes, the rest start dead.
    pub fn seed(&mut self, source: &ImageSource)
        requires
            old(self).wf(),
            seed_fits(*source, *old(self)),
        ensures
            final(self).wf(),
            final(self).next == old(self).next,
            final(self).current.width == old(self).current.width,
            final(self).current.height == old(self).current.height,
            forall|x: int, y: int|
                old(self).current.in_bounds(x, y) ==> final(self).current.cell(x, y) == seed_cell(
                    *source,
                    x,
                    y,
                ),
    {
        let width = self.current.width;
        let height = self.current.height;
        let ghost w = width as int;
        let mut cells: Vec<u8> = Vec::new();
        let mut y: usize = 0;
        while y < height
            invariant
                w == width,
                y <= height,
                width == old(self).current.width,
                height == old(self).current.height,
                old(self).wf(),
                seed_fits(*source, *old(self)),
                cells@.len() == y * width,
                forall|xx: int, yy: int|
                    0 <= xx < width && 0 <= yy < y ==> #[trigger] cell_in(cells@, w, xx, yy)
                        == seed_cell(*source, xx, yy),
            decreases height - y,
        {
            let mut x: usize = 0;
            proof {
                assert(y * width + width <= height * width) by (nonlinear_arith)
                    requires
                        y < height,
                        0 <= width,
                ;
                assert(height * width == width * height) by (nonlinear_arith);
            }
            while x < width
                invariant
                    w == width,
                    x <= width,
                    y < height,
                    width == old(self).current.width,
                    height == old(self).current.height,
                    old(self).wf(),
                    seed_fits(*source, *old(self)),
                    cells@.len() == y * width + x,
                    y * width + width <= usize::MAX,
                    forall|xx: int, yy: int|
                        0 <= xx < width && 0 <= yy < y ==> #[trigger] cell_in(cells@, w, xx, yy)
                            == seed_cell(*source, xx, yy),
                    forall|xx: int|
                        0 <= xx < x ==> #[trigger] cell_in(cells@, w, xx, y as int) == seed_cell(
                            *source,
                            xx,
                            y as int,
                        ),
                decreases width - x,
            {
                let byte: u8 = match source {
                    ImageSource::Pixels(r) => {
                        if x < r.width as usize && y < r.height as usize {
                            proof {
                                lemma_index_bound(
                                    x as int,
                                    y as int,
                                    r.width as int,
                                    r.height as int,
                                );
                                assert(r.height * r.width == r.width * r.height)
                                    by (nonlinear_arith);
                            }
                            let idx: usize = y * (r.width as usize) + x;
                            r.pixels[idx]
                        } else {
                            0
                        }
                    },
                    ImageSource::Empty { .. } => 0,
                };
                let ghost pre = cells@;
                cells.push(byte);
                proof {
                    assert forall|xx: int, yy: int|
                        0 <= xx < width && 0 <= yy < y implies #[trigger] cell_in(
                        cells@,
                        w,
                        xx,
                        yy,
                    ) == seed_cell(*source, xx, yy) by {
                        lemma_row_major_order(x as int, y as int, xx, yy, w);
                        assert(cell_in(cells@, w, xx, yy) == cell_in(pre, w, xx, yy));
                    }
                    assert forall|xx: int| 0 <= xx <= x implies #[trigger] cell_in(
                        cells@,
                        w,
                        xx,
                        y as int,
                    ) == seed_cell(*source, xx, y as int) by {
                        if xx < x as int {
                            lemma_row_major_order(x as int, y as int, xx, y as int, w);
                            assert(cell_in(cells@, w, xx, y as int) == cell_in(
                                pre,
                                w,
                                xx,
                                y as int,
                            ));
                        } else {
                            assert(y as int * w + xx == pre.len());
                            assert(cell_in(cells@, w, xx, y as int) == byte);
                        }
                    }
                }
                x = x + 1;
            }
            y = y + 1;
            proof {
                assert(y * width == (y - 1) * width + width) by (nonlinear_arith);
            }
        }
        proof {
            assert(height * width == width * height) by (nonlinear_arith);
        }
        self.current = Grid { width, height, cells };
    }

    /// The compute pass: writes the rule's result for `current` over every
    /// cell of `next`, leaving `current` untouched.
    pub fn compute_pass(&mut self)
        requires
            old(self).wf(),
        ensures
            final(self).wf(),
            final(self).current == old(self).current,
            final(self).next.width == old(self).next.width,
            final(self).next.height == old(self).next.height,
            forall|x: int, y: int|
                old(self).current.in_bounds(x, y) ==> final(self).next.cell(x, y) == old(
                    self,
                ).current.next_cell(x, y),
    {
        let stepped = self.current.step();
        self.next = stepped;
    }

    /// One whole frame of the automaton: a compute pass followed by a copy
    /// pass, leaving `current` advanced by exactly one generation of the
    /// rule.
    pub fn advance(&mut self)
        requires
            old(self).wf(),
        ensures
            final(self).wf(),
            final(self).width() == old(self).width(),
            final(self).height() == old(self).height(),
            forall|x: int, y: int|
                old(self).current.in_bounds(x, y) ==> final(self).current.cell(x, y) == old(
                    self,
                ).current.next_cell(x, y),
    {
        self.compute_pass();
        self.copy_pass();
    }

    /// The copy pass: commits `next` into `current`, cell for cell.
    pub fn copy_pass(&mut self)
        requires
            old(self).wf(),
        ensures
            final(self).wf(),
            copy_committed(*old(self), *final(self)),
    {
        let copied = copy_bytes(&self.next.cells);
        self.current = Grid { width: self.next.width, height: self.next.height, cells: copied };
    }
}

/// Two copy passes in a row with no compute pass between them are no more
/// than one: the second pass leaves `current` exactly as the first left it.
pub proof fn lemma_copy_pass_idempotent(
    b0: GenerationBuffer,
    b1: GenerationBuffer,
    b2: GenerationBuffer,
)
    requires
        copy_committed(b0, b1),
        copy_committed(b1, b2),
    ensures
        b2.current.cells@ == b1.current.cells@,
        b2.current.width == b1.current.width,
        b2.current.height == b1.current.height,
{
}

/// A compute pass followed by a copy pass advances `current` by exactly one
/// generation of the rule.
pub proof fn lemma_frame_advances_generation(
    b0: GenerationBuffer,
    b1: GenerationBuffer,
    b2: GenerationBuffer,
)
    requires
        b0.wf(),
        b1.current == b0.current,
        b1.next.width == b0.next.width,
        b1.next.height == b0.next.height,
        b1.next.wf(),
        forall|x: int, y: int|
            b0.current.in_bounds(x, y) ==> b1.next.cell(x, y) == b0.current.next_cell(x, y),
        copy_committed(b1, b2),
    ensures
        forall|x: int, y: int|
            b0.current.in_bounds(x, y) ==> b2.current.cell(x, y) == b0.current.next_cell(x, y),
{
    assert forall|x: int, y: int| b0.current.in_bounds(x, y) implies b2.current.cell(x, y)
        == b0.current.next_cell(x, y) by {
        assert(b2.current.cell(x, y) == b1.next.cell(x, y));
    }
}

} // verus!
