//! The grid and its generations.

use vstd::prelude::*;

use crate::cell::{Cell, next_state, next_dead_time, step_cell};

verus! {

/// What a `Universe` holds, as mathematical values.
pub struct UniverseView {
    pub width: nat,
    pub height: nat,
    /// Row-major: the cell at `(x, y)` stands at `y * width + x`.
    pub cells: Seq<Cell>,
    /// One counter per cell, indexed as `cells`.
    pub dead_times: Seq<u8>,
}

/// 1 if `b` holds, else 0.
pub open spec fn count_if(b: bool) -> int {
    if b {
        1
    } else {
        0
    }
}

/// Whether `(x, y)` lies on a `w` by `h` grid and the cell there is alive.
pub open spec fn alive_at(cells: Seq<Cell>, w: int, h: int, x: int, y: int) -> bool {
    0 <= x < w && 0 <= y < h && cells[y * w + x] == Cell::Alive
}

/// How many of the up to eight cells around `(x, y)` are alive; positions
/// off the grid count as not alive.
pub open spec fn live_neighbors(cells: Seq<Cell>, w: int, h: int, x: int, y: int) -> int {
    count_if(alive_at(cells, w, h, x - 1, y - 1))
        + count_if(alive_at(cells, w, h, x, y - 1))
        + count_if(alive_at(cells, w, h, x + 1, y - 1))
        + count_if(alive_at(cells, w, h, x - 1, y))
        + count_if(alive_at(cells, w, h, x + 1, y))
        + count_if(alive_at(cells, w, h, x - 1, y + 1))
        + count_if(alive_at(cells, w, h, x, y + 1))
        + count_if(alive_at(cells, w, h, x + 1, y + 1))
}

/// The cells of the next generation, each computed from the generation given.
pub open spec fn next_cells(cells: Seq<Cell>, dead_times: Seq<u8>, w: int, h: int) -> Seq<Cell> {
    Seq::new(
        cells.len(),
        |i: int| next_state(cells[i], live_neighbors(cells, w, h, i % w, i / w), dead_times[i] as int),
    )
}

/// The dead-time counters of the next generation.
pub open spec fn next_dead_times(cells: Seq<Cell>, dead_times: Seq<u8>, w: int, h: int) -> Seq<u8> {
    Seq::new(
        cells.len(),
        |i: int| next_dead_time(cells[i], live_neighbors(cells, w, h, i % w, i / w), dead_times[i]),
    )
}

/// `n` dead cells.
pub open spec fn all_dead(n: nat) -> Seq<Cell> {
    Seq::new(n, |i: int| Cell::Dead)
}

/// `n` counters at zero.
pub open spec fn zeros(n: nat) -> Seq<u8> {
    Seq::new(n, |i: int| 0u8)
}

/// A position on a `w` by `h` grid has a row-major index below `w * h`.
pub proof fn lemma_index_in_grid(x: int, y: int, w: int, h: int)
    requires
        0 <= x < w,
        0 <= y < h,
    ensures
        0 <= y * w + x < w * h,
{
    assert(0 <= y * w + x < w * h) by (nonlinear_arith)
        requires
            0 <= x < w,
            0 <= y < h,
    ;
}

/// Why an operation on the grid was refused.
#[derive(Clone, Copy, Debug, PartialEq, Eq, Structural)]
pub enum GridError {
    /// The number of cells given is not width times height.
    DimensionMismatch,
    /// A position lies outside the grid.
    OutOfBounds,
}

/// The cells of the pattern that every `Universe::new` starts from: the cell
/// at flat index `i` is alive when `i` is a multiple of 2 or of 7, else idle.
pub open spec fn seeded_cell(i: int) -> Cell {
    if i % 2 == 0 || i % 7 == 0 {
        Cell::Alive
    } else {
        Cell::Idle
    }
}

/// The cell that a byte of a pattern stands for: nonzero is alive.
pub open spec fn cell_of(b: u8) -> Cell {
    if b != 0 {
        Cell::Alive
    } else {
        Cell::Dead
    }
}

/// The rows of a pattern laid end to end, each byte read by `cell_of`.
pub open spec fn flatten_rows(rows: Seq<Vec<u8>>) -> Seq<Cell>
    decreases rows.len(),
{
    if rows.len() == 0 {
        Seq::empty()
    } else {
        flatten_rows(rows.drop_last()) + rows.last()@.map_values(|b: u8| cell_of(b))
    }
}

/// Turns a pattern given row by row (nonzero for alive) into row-major cells.
pub fn into_cells(rows: Vec<Vec<u8>>) -> (r: Vec<Cell>)
    ensures
        r@ == flatten_rows(rows@),
{
    let mut acc: Vec<Cell> = Vec::new();
    let mut k: usize = 0;
    while k < rows.len()
        invariant
            k <= rows@.len(),
            acc@ == flatten_rows(rows@.subrange(0, k as int)),
        decreases rows@.len() - k,
    {
        let row = &rows[k];
        let mut c: usize = 0;
        while c < row.len()
            invariant
                c <= row@.len(),
                acc@ == flatten_rows(rows@.subrange(0, k as int)) + row@.subrange(
                    0,
                    c as int,
                ).map_values(|b: u8| cell_of(b)),
            decreases row@.len() - c,
        {
            let b = row[c];
            acc.push(if b != 0 {
                Cell::Alive
            } else {
                Cell::Dead
            });
            c = c + 1;
            assert(row@.subrange(0, c as int).map_values(|b: u8| cell_of(b)) =~= row@.subrange(
                0,
                c - 1,
            ).map_values(|b: u8| cell_of(b)).push(cell_of(b)));
        }
        k = k + 1;
        assert(rows@.subrange(0, k as int).drop_last() =~= rows@.subrange(0, k - 1));
        assert(row@.subrange(0, row@.len() as int) =~= row@);
    }
    assert(rows@.subrange(0, rows@.len() as int) =~= rows@);
    acc
}

/// `n` counters at zero.
fn zeroed(n: usize) -> (r: Vec<u8>)
    ensures
        r@ == zeros(n as nat),
{
    let mut v: Vec<u8> = Vec::new();
    let mut i: usize = 0;
    while i < n
        invariant
            i <= n,
            v@ == zeros(i as nat),
        decreases n - i,
    {
        v.push(0);
        i = i + 1;
        assert(v@ =~= zeros(i as nat));
    }
    v
}

/// The character a cell is drawn with: one for dead cells, another for
/// alive and idle ones.
pub open spec fn glyph(c: Cell) -> char {
    if c == Cell::Dead {
        '\u{25fb}'
    } else {
        '\u{25fc}'
    }
}

/// Row `y` of a grid `w` cells wide, drawn and ended by a newline.
pub open spec fn row_text(cells: Seq<Cell>, w: int, y: int) -> Seq<char> {
    Seq::new(w as nat, |x: int| glyph(cells[y * w + x])).push('\n')
}

/// The first `rows` rows of a grid `w` cells wide, drawn one after another.
pub open spec fn rendered(cells: Seq<Cell>, w: int, rows: nat) -> Seq<char>
    decreases rows,
{
    if rows == 0 {
        Seq::empty()
    } else {
        rendered(cells, w, (rows - 1) as nat) + row_text(cells, w, rows - 1)
    }
}

/// Relies on String::push: appends `c` to the end of `s`.
#[verifier::external_body]
fn push_char(s: &mut String, c: char)
    ensures
        final(s)@ == old(s)@.push(c),
{
    s.push(c);
}

/// The grid: its size, its cells and a dead-time counter for each cell.
pub struct Universe {
    width: usize,
    height: usize,
    cells: Vec<Cell>,
    dead_times: Vec<u8>,
}

impl View for Universe {
    type V = UniverseView;

    closed spec fn view(&self) -> UniverseView {
        UniverseView {
            width: self.width as nat,
            height: self.height as nat,
            cells: self.cells@,
            dead_times: self.dead_times@,
        }
    }
}

impl Universe {
    /// One cell and one counter for each position of the grid.
    pub open spec fn wf(&self) -> bool {
        &&& self@.width * self@.height <= usize::MAX
        &&& self@.cells.len() == self@.width * self@.height
        &&& self@.dead_times.len() == self@.width * self@.height
    }

    fn index(&self, x: usize, y: usize) -> (r: usize)
        requires
            self.wf(),
            x < self@.width,
            y < self@.height,
        ensures
            r == y * self@.width + x,
            r < self@.cells.len(),
    {
        proof {
            lemma_index_in_grid(x as int, y as int, self.width as int, self.height as int);
        }
        y * self.width + x
    }

    fn is_alive(&self, x: usize, y: usize) -> (r: bool)
        requires
            self.wf(),
        ensures
            r == alive_at(self@.cells, self@.width as int, self@.height as int, x as int, y as int),
    {
        if x < self.width && y < self.height {
            let idx = self.index(x, y);
            self.cells[idx] == Cell::Alive
        } else {
            false
        }
    }

    /// A grid of `width` by `height` holding `cells` in row-major order, with
    /// every dead-time counter at zero.
    pub fn with_cells(cells: Vec<Cell>, height: usize, width: usize) -> (r: Universe)
        requires
            cells@.len() == width * height,
        ensures
            r.wf(),
            r@.width == width,
            r@.height == height,
            r@.cells == cells@,
            r@.dead_times == zeros(cells@.len()),
    {
        let dead_times = zeroed(cells.len());
        Universe { width, height, cells, dead_times }
    }

    /// As `with_cells`, but refuses a cell list whose length is not
    /// `width * height`.
    pub fn try_with_cells(cells: Vec<Cell>, height: usize, width: usize) -> (r: Result<
        Universe,
        GridError,
    >)
        ensures
            cells@.len() == width * height <==> r is Ok,
            r is Err ==> r == Err::<Universe, GridError>(GridError::DimensionMismatch),
            r matches Ok(u) ==> {
                &&& u.wf()
                &&& u@.width == width
                &&& u@.height == height
                &&& u@.cells == cells@
                &&& u@.dead_times == zeros(cells@.len())
            },
    {
        let len = cells.len();
        match width.checked_mul(height) {
            Some(n) => {
                if len == n {
                    Ok(Universe::with_cells(cells, height, width))
                } else {
                    Err(GridError::DimensionMismatch)
                }
            },
            None => Err(GridError::DimensionMismatch),
        }
    }

    /// The 64 by 64 demonstration grid: the cell at flat index `i` is alive
    /// when `i` is a multiple of 2 or of 7, else idle.
    pub fn new() -> (r: Universe)
        ensures
            r.wf(),
            r@.width == 64,
            r@.height == 64,
            r@.cells == Seq::new(64 * 64, |i: int| seeded_cell(i)),
            r@.dead_times == zeros(64 * 64),
    {
        let width: usize = 64;
        let height: usize = 64;
        let mut cells: Vec<Cell> = Vec::new();
        let mut i: usize = 0;
        while i < width * height
            invariant
                width == 64,
                height == 64,
                i <= width * height,
                cells@ == Seq::new(i as nat, |k: int| seeded_cell(k)),
            decreases width * height - i,
        {
            let c = if i % 2 == 0 || i % 7 == 0 {
                Cell::Alive
            } else {
                Cell::Idle
            };
            cells.push(c);
            i = i + 1;
            assert(cells@ =~= Seq::new(i as nat, |k: int| seeded_cell(k)));
        }
        let dead_times = zeroed(width * height);
        Universe { width, height, cells, dead_times }
    }

    /// The number of columns.
    pub fn width(&self) -> (r: usize)
        ensures
            r == self@.width,
    {
        self.width
    }

    /// The number of rows.
    pub fn height(&self) -> (r: usize)
        ensures
            r == self@.height,
    {
        self.height
    }

    /// The cells, row-major.
    pub fn cells(&self) -> (r: &[Cell])
        ensures
            r@ == self@.cells,
    {
        self.cells.as_slice()
    }

    /// The grid as text: one line per row, one character per cell.
    pub fn render(&self) -> (r: String)
        requires
            self.wf(),
        ensures
            r@ == rendered(self@.cells, self@.width as int, self@.height as nat),
    {
        let mut out = String::new();
        let mut y: usize = 0;
        while y < self.height
            invariant
                self.wf(),
                y <= self@.height,
                out@ == rendered(self@.cells, self@.width as int, y as nat),
            decreases self@.height - y,
        {
            let ghost start = out@;
            let mut x: usize = 0;
            while x < self.width
                invariant
                    self.wf(),
                    y < self@.height,
                    x <= self@.width,
                    out@ == start + Seq::new(
                        x as nat,
                        |i: int| glyph(self@.cells[y * self@.width + i]),
                    ),
                decreases self@.width - x,
            {
                let idx = self.index(x, y);
                let c = if self.cells[idx] == Cell::Dead {
                    '\u{25fb}'
                } else {
                    '\u{25fc}'
                };
                push_char(&mut out, c);
                x = x + 1;
                assert(out@ =~= start + Seq::new(
                    x as nat,
                    |i: int| glyph(self@.cells[y * self@.width + i]),
                ));
            }
            push_char(&mut out, '\n');
            y = y + 1;
            assert(out@ =~= rendered(self@.cells, self@.width as int, y as nat));
        }
        out
    }

    /// Makes every cell dead and sets every dead-time counter to zero, with
    /// as many cells as the grid's width and height call for.
    pub fn clear(&mut self)
        requires
            old(self)@.width * old(self)@.height <= usize::MAX,
        ensures
            final(self).wf(),
            final(self)@.width == old(self)@.width,
            final(self)@.height == old(self)@.height,
            final(self)@.cells == all_dead(old(self)@.width * old(self)@.height),
            final(self)@.dead_times == zeros(old(self)@.width * old(self)@.height),
    {
        let n = self.width * self.height;
        let mut cells: Vec<Cell> = Vec::new();
        let mut i: usize = 0;
        while i < n
            invariant
                i <= n,
                cells@ == all_dead(i as nat),
            decreases n - i,
        {
            cells.push(Cell::Dead);
            i = i + 1;
            assert(cells@ =~= all_dead(i as nat));
        }
        self.cells = cells;
        self.dead_times = zeroed(n);
    }

    /// Sets the number of columns; every cell becomes dead and every counter
    /// zero.
    pub fn set_width(&mut self, width: usize)
        requires
            width * old(self)@.height <= usize::MAX,
        ensures
            final(self).wf(),
            final(self)@.width == width,
            final(self)@.height == old(self)@.height,
            final(self)@.cells == all_dead((width * old(self)@.height) as nat),
            final(self)@.dead_times == zeros((width * old(self)@.height) as nat),
    {
        self.width = width;
        self.clear();
    }

    /// Sets the number of rows; every cell becomes dead and every counter
    /// zero.
    pub fn set_height(&mut self, height: usize)
        requires
            old(self)@.width * height <= usize::MAX,
        ensures
            final(self).wf(),
            final(self)@.width == old(self)@.width,
            final(self)@.height == height,
            final(self)@.cells == all_dead((old(self)@.width * height) as nat),
            final(self)@.dead_times == zeros((old(self)@.width * height) as nat),
    {
        self.height = height;
        self.clear();
    }

    /// Makes the cell at `(x, y)` alive. Its dead-time counter, and every
    /// other cell, are left as they were.
    pub fn push_cell(&mut self, x: usize, y: usize)
        requires
            old(self).wf(),
            x < old(self)@.width,
            y < old(self)@.height,
        ensures
            final(self).wf(),
            final(self)@.width == old(self)@.width,
            final(self)@.height == old(self)@.height,
            final(self)@.cells == old(self)@.cells.update(y * old(self)@.width + x, Cell::Alive),
            final(self)@.dead_times == old(self)@.dead_times,
    {
        let idx = self.index(x, y);
        self.cells.set(idx, Cell::Alive);
    }

    /// As `push_cell`, but refuses a position off the grid and then leaves
    /// the grid unchanged.
    pub fn try_push_cell(&mut self, x: usize, y: usize) -> (r: Result<(), GridError>)
        requires
            old(self).wf(),
        ensures
            final(self).wf(),
            r is Ok <==> (x < old(self)@.width && y < old(self)@.height),
            r is Err ==> r == Err::<(), GridError>(GridError::OutOfBounds),
            r is Ok ==> final(self)@ == (UniverseView {
                cells: old(self)@.cells.update(y * old(self)@.width + x, Cell::Alive),
                ..old(self)@
            }),
            r is Err ==> final(self)@ == old(self)@,
    {
        if x < self.width && y < self.height {
            self.push_cell(x, y);
            Ok(())
        } else {
            Err(GridError::OutOfBounds)
        }
    }

    /// How many of the eight cells around `(x, y)` are alive. Positions off
    /// the grid are skipped.
    pub fn neighbors(&self, x: usize, y: usize) -> (r: u8)
        requires
            self.wf(),
        ensures
            r == live_neighbors(self@.cells, self@.width as int, self@.height as int, x as int, y as int),
    {
        let mut n: u8 = 0;
        if x > 0 && y > 0 && self.is_alive(x - 1, y - 1) {
            n = n + 1;
        }
        if y > 0 && self.is_alive(x, y - 1) {
            n = n + 1;
        }
        if x < usize::MAX && y > 0 && self.is_alive(x + 1, y - 1) {
            n = n + 1;
        }
        if x > 0 && self.is_alive(x - 1, y) {
            n = n + 1;
        }
        if x < usize::MAX && self.is_alive(x + 1, y) {
            n = n + 1;
        }
        if x > 0 && y < usize::MAX && self.is_alive(x - 1, y + 1) {
            n = n + 1;
        }
        if y < usize::MAX && self.is_alive(x, y + 1) {
            n = n + 1;
        }
        if x < usize::MAX && y < usize::MAX && self.is_alive(x + 1, y + 1) {
            n = n + 1;
        }
        n
    }

    /// Advances the grid one generation. Every cell's next state and counter
    /// are computed from the generation before the call, never from cells
    /// this call has already replaced.
    pub fn tick(&mut self)
        requires
            old(self).wf(),
        ensures
            final(self).wf(),
            final(self)@.width == old(self)@.width,
            final(self)@.height == old(self)@.height,
            final(self)@.cells == next_cells(
                old(self)@.cells,
                old(self)@.dead_times,
                old(self)@.width as int,
                old(self)@.height as int,
            ),
            final(self)@.dead_times == next_dead_times(
                old(self)@.cells,
                old(self)@.dead_times,
                old(self)@.width as int,
                old(self)@.height as int,
            ),
    {
        let len = self.cells.len();
        let mut new_cells: Vec<Cell> = Vec::new();
        let mut new_dead_times: Vec<u8> = Vec::new();
        let mut idx: usize = 0;
        while idx < len
            invariant
                self.wf(),
                len == self@.cells.len(),
                idx <= len,
                new_cells@.len() == idx,
                new_dead_times@.len() == idx,
                forall|k: int|
                    0 <= k < idx ==> new_cells@[k] == #[trigger] next_cells(
                        self@.cells,
                        self@.dead_times,
                        self@.width as int,
                        self@.height as int,
                    )[k],
                forall|k: int|
                    0 <= k < idx ==> new_dead_times@[k] == #[trigger] next_dead_times(
                        self@.cells,
                        self@.dead_times,
                        self@.width as int,
                        self@.height as int,
                    )[k],
            decreases len - idx,
        {
            proof {
                let ghost w = self@.width as int;
                let ghost h = self@.height as int;
                assert(w > 0) by (nonlinear_arith)
                    requires
                        0 <= idx < w * h,
                        0 <= w,
                        0 <= h,
                ;
            }
            let x = idx % self.width;
            let y = idx / self.width;
            let n = self.neighbors(x, y);
            let (s, d) = step_cell(self.cells[idx], n, self.dead_times[idx]);
            new_cells.push(s);
            new_dead_times.push(d);
            idx = idx + 1;
        }
        proof {
            let ghost w = self@.width as int;
            let ghost h = self@.height as int;
            assert(new_cells@ =~= next_cells(self@.cells, self@.dead_times, w, h));
            assert(new_dead_times@ =~= next_dead_times(self@.cells, self@.dead_times, w, h));
        }
        self.cells = new_cells;
        self.dead_times = new_dead_times;
    }
}

} // verus!
