use vstd::prelude::*;
use vstd::string::StrSliceExecFns;

use crate::point::{is_catalog_point, HookFamily};

verus! {

/// Columns of the diagram.
pub const GRID_WIDTH: u16 = 23;

/// Rows of the diagram.
pub const GRID_HEIGHT: u16 = 10;

/// Foreground colour of a cell.
#[derive(Clone, Copy, Debug, PartialEq, Eq, Structural)]
pub enum Color {
    /// The default style.
    Reset,
    /// The highlight of the selected point.
    Red,
}

/// One character cell of a buffer.
#[derive(Clone, Copy, Debug, PartialEq, Eq, Structural)]
pub struct Cell {
    pub symbol: char,
    pub fg: Color,
}

/// A cell holding a blank in the default style.
pub open spec fn blank_cell() -> Cell {
    Cell { symbol: ' ', fg: Color::Reset }
}

/// A rectangular grid of cells, stored row by row.
pub struct CellBuffer {
    pub(crate) width: u16,
    pub(crate) height: u16,
    pub(crate) cells: Vec<Cell>,
}

impl CellBuffer {
    /// The buffer holds one cell per column and row.
    pub open(crate) spec fn wf(&self) -> bool {
        self.cells@.len() == self.width as int * self.height as int
    }

    pub open(crate) spec fn spec_width(&self) -> int {
        self.width as int
    }

    pub open(crate) spec fn spec_height(&self) -> int {
        self.height as int
    }

    /// Cell at column `x` and row `y`.
    pub open(crate) spec fn cell_at(&self, x: int, y: int) -> Cell {
        self.cells@[y * self.width + x]
    }

    /// A buffer of `width` × `height` blank cells.
    pub fn new(width: u16, height: u16) -> (r: CellBuffer)
        ensures
            r.wf(),
            r.spec_width() == width,
            r.spec_height() == height,
            forall|x: int, y: int|
                0 <= x < width && 0 <= y < height ==> #[trigger] r.cell_at(x, y) == blank_cell(),
    {
        proof {
            assert(width as int * height as int <= 0xFFFF * 0xFFFF) by (nonlinear_arith)
                requires
                    width <= 0xFFFF,
                    height <= 0xFFFF,
            ;
        }
        let len: usize = (width as usize) * (height as usize);
        let mut cells: Vec<Cell> = Vec::new();
        while cells.len() < len
            invariant
                len == width as int * height as int,
                cells@.len() <= len,
                forall|i: int| 0 <= i < cells@.len() ==> #[trigger] cells@[i] == blank_cell(),
            decreases len - cells@.len(),
        {
            cells.push(Cell { symbol: ' ', fg: Color::Reset });
        }
        let r = CellBuffer { width, height, cells };
        assert forall|x: int, y: int| 0 <= x < width && 0 <= y < height implies #[trigger] r.cell_at(
            x,
            y,
        ) == blank_cell() by {
            CellBuffer::lemma_index_in_bounds(width as int, height as int, x, y);
        }
        r
    }

    proof fn lemma_index_in_bounds(width: int, height: int, x: int, y: int)
        requires
            0 <= x < width,
            0 <= y < height,
        ensures
            0 <= y * width + x < width * height,
    {
        assert(0 <= y * width + x < width * height) by (nonlinear_arith)
            requires
                0 <= x < width,
                0 <= y < height,
        ;
    }

    pub fn width(&self) -> (r: u16)
        ensures
            r == self.spec_width(),
    {
        self.width
    }

    pub fn height(&self) -> (r: u16)
        ensures
            r == self.spec_height(),
    {
        self.height
    }

    /// Cell at column `x` and row `y`.
    pub fn get(&self, x: u16, y: u16) -> (r: Cell)
        requires
            self.wf(),
            x < self.spec_width(),
            y < self.spec_height(),
        ensures
            r == self.cell_at(x as int, y as int),
    {
        proof {
            assert(self.cells@.len() == self.cells.len());
            CellBuffer::lemma_index_in_bounds(self.width as int, self.height as int, x as int, y as int);
        }
        self.cells[(y as usize) * (self.width as usize) + (x as usize)]
    }

    /// Replaces the cell at column `x` and row `y`, leaving every other cell
    /// as it was.
    pub fn set(&mut self, x: u16, y: u16, cell: Cell)
        requires
            old(self).wf(),
            x < old(self).spec_width(),
            y < old(self).spec_height(),
        ensures
            final(self).wf(),
            final(self).spec_width() == old(self).spec_width(),
            final(self).spec_height() == old(self).spec_height(),
            final(self).cell_at(x as int, y as int) == cell,
            forall|cx: int, cy: int|
                0 <= cx < old(self).spec_width() && 0 <= cy < old(self).spec_height() && (cx != x
                    || cy != y) ==> #[trigger] final(self).cell_at(cx, cy) == old(self).cell_at(
                    cx,
                    cy,
                ),
    {
        proof {
            assert(self.cells@.len() == self.cells.len());
            CellBuffer::lemma_index_in_bounds(self.width as int, self.height as int, x as int, y as int);
        }
        let i: usize = (y as usize) * (self.width as usize) + (x as usize);
        self.cells.set(i, cell);
        proof {
            assert forall|cx: int, cy: int|
                0 <= cx < old(self).spec_width() && 0 <= cy < old(self).spec_height() && (cx != x
                    || cy != y) implies #[trigger] self.cell_at(cx, cy) == old(self).cell_at(
                cx,
                cy,
            ) by {
                CellBuffer::lemma_index_in_bounds(self.width as int, self.height as int, cx, cy);
                CellBuffer::lemma_index_distinct(self.width as int, x as int, y as int, cx, cy);
            }
        }
    }

    proof fn lemma_index_distinct(width: int, x: int, y: int, cx: int, cy: int)
        requires
            0 <= x < width,
            0 <= cx < width,
            0 <= y,
            0 <= cy,
            x != cx || y != cy,
        ensures
            y * width + x != cy * width + cx,
    {
        if y == cy {
        } else if y < cy {
            assert(y * width + width <= cy * width) by (nonlinear_arith)
                requires
                    y < cy,
                    0 <= width,
            ;
        } else {
            assert(cy * width + width <= y * width) by (nonlinear_arith)
                requires
                    cy < y,
                    0 <= width,
            ;
        }
    }
}

/// The diagram's rows, each 23 characters wide.
pub open spec fn diagram_rows() -> Seq<Seq<char>> {
    seq![
        "         ┌┄┄┄┐         "@,
        "         █   └─█       "@,
        "         │     │       "@,
        "     ┌─█─┴─█───█─┬─┐   "@,
        "     │ │         │ │   "@,
        "     │ └─█     █─┘ │   "@,
        "     │   │     │   │   "@,
        "┄┄┄█─┼─█─┴─█───█───█┄┄┄"@,
        "     │             │   "@,
        "     └───█┄┄┄┄┄█───┘   "@,
    ]
}

/// Character of the diagram at column `x` and row `y`.
pub open spec fn diagram_glyph(x: int, y: int) -> char {
    diagram_rows()[y][x]
}

/// Row `y` of the diagram.
fn diagram_row(y: u16) -> (r: &'static str)
    requires
        y < GRID_HEIGHT,
    ensures
        r@ == diagram_rows()[y as int],
        r@.len() == GRID_WIDTH,
{
    proof {
        reveal_strlit("         ┌┄┄┄┐         ");
        reveal_strlit("         █   └─█       ");
        reveal_strlit("         │     │       ");
        reveal_strlit("     ┌─█─┴─█───█─┬─┐   ");
        reveal_strlit("     │ │         │ │   ");
        reveal_strlit("     │ └─█     █─┘ │   ");
        reveal_strlit("     │   │     │   │   ");
        reveal_strlit("┄┄┄█─┼─█─┴─█───█───█┄┄┄");
        reveal_strlit("     │             │   ");
        reveal_strlit("     └───█┄┄┄┄┄█───┘   ");
    }
    if y == 0 {
        "         ┌┄┄┄┐         "
    } else if y == 1 {
        "         █   └─█       "
    } else if y == 2 {
        "         │     │       "
    } else if y == 3 {
        "     ┌─█─┴─█───█─┬─┐   "
    } else if y == 4 {
        "     │ │         │ │   "
    } else if y == 5 {
        "     │ └─█     █─┘ │   "
    } else if y == 6 {
        "     │   │     │   │   "
    } else if y == 7 {
        "┄┄┄█─┼─█─┴─█───█───█┄┄┄"
    } else if y == 8 {
        "     │             │   "
    } else {
        "     └───█┄┄┄┄┄█───┘   "
    }
}

/// The cell that rendering with `selected` as the selection puts at column
/// `x` and row `y`: the diagram's character, highlighted at the selection.
pub open spec fn rendered_cell(selected: HookFamily, x: int, y: int) -> Cell {
    Cell {
        symbol: diagram_glyph(x, y),
        fg: if x == selected.spec_x() && y == selected.spec_y() {
            Color::Red
        } else {
            Color::Reset
        },
    }
}

/// The diagram, with one point selected.
#[derive(Clone, Copy, Debug)]
pub struct Diagram {
    pub(crate) selected: HookFamily,
}

impl Diagram {
    pub open(crate) spec fn spec_selected(self) -> HookFamily {
        self.selected
    }

    pub fn new(selected: HookFamily) -> (r: Diagram)
        ensures
            r.spec_selected() == selected,
    {
        Diagram { selected }
    }

    /// Paints the diagram into `target`, which must be exactly as large as the
    /// diagram: every cell gets the diagram's character in the default style,
    /// except the selected point's cell, which is highlighted.
    pub fn render(self, target: &mut CellBuffer)
        requires
            old(target).wf(),
            old(target).spec_width() == GRID_WIDTH,
            old(target).spec_height() == GRID_HEIGHT,
        ensures
            final(target).wf(),
            final(target).spec_width() == GRID_WIDTH,
            final(target).spec_height() == GRID_HEIGHT,
            forall|x: int, y: int|
                0 <= x < GRID_WIDTH && 0 <= y < GRID_HEIGHT ==> #[trigger] final(target).cell_at(x, y)
                    == rendered_cell(self.spec_selected(), x, y),
    {
        let mut y: u16 = 0;
        while y < GRID_HEIGHT
            invariant
                y <= GRID_HEIGHT,
                target.wf(),
                target.spec_width() == GRID_WIDTH,
                target.spec_height() == GRID_HEIGHT,
                forall|cx: int, cy: int|
                    0 <= cx < GRID_WIDTH && 0 <= cy < y ==> #[trigger] target.cell_at(cx, cy)
                        == (Cell { symbol: diagram_glyph(cx, cy), fg: Color::Reset }),
            decreases GRID_HEIGHT - y,
        {
            let row = diagram_row(y);
            let mut x: u16 = 0;
            while x < GRID_WIDTH
                invariant
                    x <= GRID_WIDTH,
                    y < GRID_HEIGHT,
                    row@ == diagram_rows()[y as int],
                    row@.len() == GRID_WIDTH,
                    target.wf(),
                    target.spec_width() == GRID_WIDTH,
                    target.spec_height() == GRID_HEIGHT,
                    forall|cx: int, cy: int|
                        0 <= cx < GRID_WIDTH && 0 <= cy < y ==> #[trigger] target.cell_at(cx, cy)
                            == (Cell { symbol: diagram_glyph(cx, cy), fg: Color::Reset }),
                    forall|cx: int| 0 <= cx < x ==> #[trigger] target.cell_at(cx, y as int)
                        == (Cell { symbol: diagram_glyph(cx, y as int), fg: Color::Reset }),
                decreases GRID_WIDTH - x,
            {
                let symbol = row.get_char(x as usize);
                target.set(x, y, Cell { symbol, fg: Color::Reset });
                x = x + 1;
            }
            y = y + 1;
        }
        let (sx, sy) = self.selected.to_xy();
        let old_cell = target.get(sx, sy);
        target.set(sx, sy, Cell { symbol: old_cell.symbol, fg: Color::Red });
    }
}

/// After rendering, the buffer is exactly the diagram's size, and exactly one
/// cell has a colour other than the default: the selected point's cell, which
/// lies inside the diagram.
pub proof fn lemma_render_highlights_one_cell(selected: HookFamily, target: CellBuffer)
    requires
        is_catalog_point(selected),
        target.spec_width() == GRID_WIDTH,
        target.spec_height() == GRID_HEIGHT,
        forall|x: int, y: int|
            0 <= x < GRID_WIDTH && 0 <= y < GRID_HEIGHT ==> #[trigger] target.cell_at(x, y)
                == rendered_cell(selected, x, y),
    ensures
        0 <= selected.spec_x() < GRID_WIDTH,
        0 <= selected.spec_y() < GRID_HEIGHT,
        target.cell_at(selected.spec_x(), selected.spec_y()).fg != Color::Reset,
        forall|x: int, y: int|
            0 <= x < GRID_WIDTH && 0 <= y < GRID_HEIGHT && (#[trigger] target.cell_at(x, y)).fg
                != Color::Reset ==> x == selected.spec_x() && y == selected.spec_y(),
{
    assert(target.cell_at(selected.spec_x(), selected.spec_y()) == rendered_cell(
        selected,
        selected.spec_x(),
        selected.spec_y(),
    ));
}

} // verus!
