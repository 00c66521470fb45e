//! One generation of the automaton and the step to the next one.
//!
//! Cells beyond the edges of the grid are dead: the grid does not wrap
//! around, and an edge cell has fewer than eight neighbours that can live.

use vstd::prelude::*;
use vstd::arithmetic::div_mod::{lemma_fundamental_div_mod, lemma_fundamental_div_mod_converse};
use vstd::arithmetic::mul::lemma_mul_is_commutative;
use crate::rule::{next_cell, next_value, ALIVE, DEAD};

verus! {

/// A generation as a mathematical value: `width` by `height` cells, row by
/// row.
pub struct Generation {
    pub width: nat,
    pub height: nat,
    pub cells: Seq<u32>,
}

impl Generation {
    /// There is one value for each cell.
    pub open spec fn wf(self) -> bool {
        self.cells.len() == self.width * self.height
    }

    /// Whether column `x` of row `y` lies on the grid.
    pub open spec fn contains(self, x: int, y: int) -> bool {
        0 <= x < self.width && 0 <= y < self.height
    }

    /// The value of the cell in column `x` of row `y`; off the grid, `DEAD`.
    pub open spec fn cell(self, x: int, y: int) -> u32 {
        if self.contains(x, y) {
            self.cells[y * self.width + x]
        } else {
            DEAD
        }
    }

    /// One if the cell in column `x` of row `y` is alive, else zero.
    pub open spec fn live(self, x: int, y: int) -> int {
        if self.cell(x, y) != DEAD {
            1
        } else {
            0
        }
    }

    /// The number of live cells among the eight cells next to column `x` of
    /// row `y`.
    pub open spec fn live_neighbors(self, x: int, y: int) -> int {
        self.live(x - 1, y - 1) + self.live(x, y - 1) + self.live(x + 1, y - 1) + self.live(
            x - 1,
            y,
        ) + self.live(x + 1, y) + self.live(x - 1, y + 1) + self.live(x, y + 1) + self.live(
            x + 1,
            y + 1,
        )
    }

    /// The value of the cell in column `x` of row `y` one generation on.
    pub open spec fn next_cell(self, x: int, y: int) -> u32 {
        next_value(self.cell(x, y), self.live_neighbors(x, y))
    }

    /// The next generation: the transition rule applied to every cell at
    /// once.
    pub open spec fn next(self) -> Generation {
        Generation {
            width: self.width,
            height: self.height,
            cells: Seq::new(
                self.width * self.height,
                |i: int| self.next_cell(i % (self.width as int), i / (self.width as int)),
            ),
        }
    }
}

/// The cell in column `x` of row `y` has a place of its own in the row-major
/// sequence of a grid that contains it.
proof fn lemma_cell_index(width: int, height: int, x: int, y: int)
    by (nonlinear_arith)
    requires
        0 <= x < width,
        0 <= y < height,
    ensures
        0 <= y * width <= y * width + x < width * height,
        width * height == height * width,
{
}

/// A grid with cells has positive sides.
proof fn lemma_sides_of_nonempty_grid(width: int, height: int)
    by (nonlinear_arith)
    requires
        0 <= width,
        0 <= height,
    ensures
        0 < width * height ==> 0 < width && 0 < height,
{
}

/// The cell after the one in column `x` of row `y`, row by row, is the next
/// one of the same row or, at the end of a row, the first one of the next
/// row; past the last cell of the grid comes the row below the last.
proof fn lemma_next_cell_index(width: int, height: int, x: int, y: int)
    by (nonlinear_arith)
    requires
        0 <= x < width,
        0 <= y < height,
    ensures
        x + 1 == width ==> y * width + x + 1 == (y + 1) * width + 0,
        x + 1 == width && y * width + x + 1 < width * height ==> y + 1 < height,
{
}

/// One if `value` is the value of a live cell, else zero.
pub open spec fn lit(value: u32) -> int {
    if value != DEAD {
        1
    } else {
        0
    }
}

/// The next generation has the size of this one, and each of its cells is
/// what the transition rule makes of that cell and its neighbours: dead or
/// alive, never another value.
pub proof fn lemma_next_generation(g: Generation, x: int, y: int)
    requires
        g.wf(),
        g.contains(x, y),
    ensures
        g.next().wf(),
        g.next().width == g.width,
        g.next().height == g.height,
        g.next().cell(x, y) == g.next_cell(x, y),
        g.next().cell(x, y) == DEAD || g.next().cell(x, y) == ALIVE,
{
    lemma_cell_index(g.width as int, g.height as int, x, y);
    lemma_fundamental_div_mod_converse(y * g.width + x, g.width as int, y, x);
}

/// The transition rule on a cell that is not on an edge of the grid,
/// whatever its neighbourhood holds: with `n` of the eight cells around it
/// alive, the cell is alive in the next generation if `n` is three, or if
/// `n` is two and the cell is alive now; else it is dead.
pub proof fn lemma_interior_cell_follows_rule(g: Generation, x: int, y: int)
    requires
        g.wf(),
        1 <= x < g.width - 1,
        1 <= y < g.height - 1,
    ensures
        ({
            let w = g.width as int;
            let n = lit(g.cells[(y - 1) * w + (x - 1)]) + lit(g.cells[(y - 1) * w + x]) + lit(
                g.cells[(y - 1) * w + (x + 1)],
            ) + lit(g.cells[y * w + (x - 1)]) + lit(g.cells[y * w + (x + 1)]) + lit(
                g.cells[(y + 1) * w + (x - 1)],
            ) + lit(g.cells[(y + 1) * w + x]) + lit(g.cells[(y + 1) * w + (x + 1)]);
            let alive = g.cells[y * w + x] != DEAD;
            &&& g.live_neighbors(x, y) == n
            &&& g.next().cells[y * w + x] == if n == 3 || (alive && n == 2) {
                ALIVE
            } else {
                DEAD
            }
        }),
{
    lemma_next_generation(g, x, y);
}

/// Nothing is born in a grid without life: where every cell is dead, every
/// cell of the next generation is dead too.
pub proof fn lemma_dead_grid_stays_dead(g: Generation)
    requires
        g.wf(),
        forall|i: int| 0 <= i < g.cells.len() ==> g.cells[i] == DEAD,
    ensures
        g.next() == g,
{
    let next = g.next();
    assert forall|i: int| 0 <= i < next.cells.len() implies next.cells[i] == g.cells[i] by {
        let w = g.width as int;
        lemma_sides_of_nonempty_grid(w, g.height as int);
        let x = i % w;
        let y = i / w;
        assert forall|a: int, b: int| g.cell(a, b) == DEAD by {
            if g.contains(a, b) {
                lemma_cell_index(w, g.height as int, a, b);
            }
        }
        assert(g.live_neighbors(x, y) == 0);
    }
    assert(next.cells =~= g.cells);
}

/// Whether `g` holds a block, two by two live cells with their upper left
/// corner in column `left` of row `top`, and no other live cell.
pub open spec fn is_block(g: Generation, left: int, top: int) -> bool {
    &&& g.wf()
    &&& 0 <= left
    &&& left + 1 < g.width
    &&& 0 <= top
    &&& top + 1 < g.height
    &&& forall|x: int, y: int|
        g.contains(x, y) ==> #[trigger] g.cell(x, y) == if left <= x <= left + 1 && top <= y <= top
            + 1 {
            ALIVE
        } else {
            DEAD
        }
}

/// A block is a still life, wherever on the grid it stands: each of its
/// cells has three live neighbours, no other cell has more than two, and so
/// the next generation is the same as this one.
pub proof fn lemma_block_is_still(g: Generation, left: int, top: int)
    requires
        is_block(g, left, top),
    ensures
        forall|x: int, y: int|
            g.contains(x, y) && left <= x <= left + 1 && top <= y <= top + 1
                ==> #[trigger] g.live_neighbors(x, y) == 3,
        forall|x: int, y: int|
            g.contains(x, y) && !(left <= x <= left + 1 && top <= y <= top + 1)
                ==> #[trigger] g.live_neighbors(x, y) <= 2,
        g.next() == g,
{
    let next = g.next();
    let w = g.width as int;
    assert forall|i: int| 0 <= i < next.cells.len() implies next.cells[i] == g.cells[i] by {
        lemma_sides_of_nonempty_grid(w, g.height as int);
        let x = i % w;
        let y = i / w;
        lemma_fundamental_div_mod(i, w);
        lemma_mul_is_commutative(w, y);
        assert(0 <= y < g.height) by (nonlinear_arith)
            requires
                i == y * w + x,
                0 <= x < w,
                0 <= i < w * g.height,
        ;
        assert(g.contains(x, y));
        assert(g.cell(x, y) == g.cells[i]);
    }
    assert(next.cells =~= g.cells);
}

/// A generation held in memory.
#[derive(Debug, PartialEq, Eq)]
pub struct Grid {
    width: u32,
    height: u32,
    cells: Vec<u32>,
}

impl View for Grid {
    type V = Generation;

    closed spec fn view(&self) -> Generation {
        Generation {
            width: self.width as nat,
            height: self.height as nat,
            cells: self.cells@,
        }
    }
}

impl Grid {
    #[verifier::type_invariant]
    spec fn inv(self) -> bool {
        self.cells@.len() == self.width * self.height
    }

    /// A grid of `width` by `height` cells with the given values, row by
    /// row. `None` unless there is exactly one value for each cell.
    pub fn from_cells(width: u32, height: u32, cells: Vec<u32>) -> (grid: Option<Grid>)
        ensures
            grid is Some <==> cells@.len() == width * height,
            grid matches Some(g) ==> g@ == (Generation {
                width: width as nat,
                height: height as nat,
                cells: cells@,
            }) && g@.wf(),
    {
        assert(width * height <= u64::MAX) by (nonlinear_arith)
            requires
                width <= u32::MAX,
                height <= u32::MAX,
        ;
        let count: u64 = (width as u64) * (height as u64);
        if cells.len() as u64 == count {
            Some(Grid { width, height, cells })
        } else {
            None
        }
    }

    /// The grid's width in cells.
    pub fn width(&self) -> (width: u32)
        ensures
            width == self@.width,
            self@.wf(),
    {
        proof {
            use_type_invariant(self);
        }
        self.width
    }

    /// The grid's height in cells.
    pub fn height(&self) -> (height: u32)
        ensures
            height == self@.height,
            self@.wf(),
    {
        proof {
            use_type_invariant(self);
        }
        self.height
    }

    /// The values of the cells, row by row.
    pub fn cells(&self) -> (cells: &Vec<u32>)
        ensures
            cells@ == self@.cells,
            self@.wf(),
    {
        proof {
            use_type_invariant(self);
        }
        &self.cells
    }

    /// The value of the cell in column `x` of row `y`; off the grid, `DEAD`.
    pub fn get(&self, x: i64, y: i64) -> (value: u32)
        ensures
            value == self@.cell(x as int, y as int),
    {
        proof {
            use_type_invariant(self);
        }
        if x < 0 || y < 0 || x >= self.width as i64 || y >= self.height as i64 {
            return DEAD;
        }
        let column = x as usize;
        let row = y as usize;
        let width = self.width as usize;
        proof {
            lemma_cell_index(width as int, self.height as int, column as int, row as int);
            assert(self.cells@.len() == self.cells.len());
        }
        self.cells[row * width + column]
    }

    /// The number of live cells among the eight cells next to column `x` of
    /// row `y`.
    pub fn live_neighbors(&self, x: u32, y: u32) -> (count: u8)
        ensures
            count == self@.live_neighbors(x as int, y as int),
            count <= 8,
    {
        let x = x as i64;
        let y = y as i64;
        let mut count: u8 = 0;
        if self.get(x - 1, y - 1) != DEAD {
            count += 1;
        }
        if self.get(x, y - 1) != DEAD {
            count += 1;
        }
        if self.get(x + 1, y - 1) != DEAD {
            count += 1;
        }
        if self.get(x - 1, y) != DEAD {
            count += 1;
        }
        if self.get(x + 1, y) != DEAD {
            count += 1;
        }
        if self.get(x - 1, y + 1) != DEAD {
            count += 1;
        }
        if self.get(x, y + 1) != DEAD {
            count += 1;
        }
        if self.get(x + 1, y + 1) != DEAD {
            count += 1;
        }
        count
    }

    /// The next generation: every cell of it follows from this generation
    /// alone, by the transition rule.
    pub fn step(&self) -> (next: Grid)
        ensures
            next@ == self@.next(),
            next@.wf(),
    {
        proof {
            use_type_invariant(self);
        }
        let width = self.width;
        let height = self.height;
        let count = self.cells.len();
        let ghost expected = self@.next().cells;
        let mut cells: Vec<u32> = Vec::with_capacity(count);
        let mut x: u32 = 0;
        let mut y: u32 = 0;
        let mut i: usize = 0;
        proof {
            lemma_sides_of_nonempty_grid(width as int, height as int);
        }
        while i < count
            invariant
                self.width == width,
                self.height == height,
                count == self.cells@.len(),
                count == width * height,
                expected == self@.next().cells,
                i <= count,
                i == y * width + x,
                i < count ==> x < width && y < height,
                cells@.len() == i,
                forall|j: int| 0 <= j < i ==> cells@[j] == expected[j],
            decreases count - i,
        {
            proof {
                lemma_fundamental_div_mod_converse(i as int, width as int, y as int, x as int);
                lemma_cell_index(width as int, height as int, x as int, y as int);
            }
            let neighbors = self.live_neighbors(x, y);
            let value = next_cell(self.cells[i], neighbors);
            assert(value == expected[i as int]);
            cells.push(value);
            proof {
                lemma_next_cell_index(width as int, height as int, x as int, y as int);
            }
            i += 1;
            x += 1;
            if x == width {
                x = 0;
                y += 1;
            }
        }
        assert(cells@ =~= expected);
        Grid { width, height, cells }
    }
}

} // verus!
