use hook_diagram::{Cell, CellBuffer, Color, Diagram, Direction, HookFamily, GRID_HEIGHT, GRID_WIDTH};

const ROWS: [&str; 10] = [
    "         ┌┄┄┄┐",
    "         █   └─█",
    "         │     │",
    "     ┌─█─┴─█───█─┬─┐",
    "     │ │         │ │",
    "     │ └─█     █─┘ │",
    "     │   │     │   │",
    "┄┄┄█─┼─█─┴─█───█───█┄┄┄",
    "     │             │",
    "     └───█┄┄┄┄┄█───┘",
];

fn expected_symbol(x: u16, y: u16) -> char {
    ROWS[y as usize].chars().nth(x as usize).unwrap_or(' ')
}

fn rendered(selected: HookFamily) -> CellBuffer {
    let mut buf = CellBuffer::new(GRID_WIDTH, GRID_HEIGHT);
    Diagram::new(selected).render(&mut buf);
    buf
}

#[test]
fn new_buffer_is_blank() {
    let buf = CellBuffer::new(4, 3);
    assert_eq!(buf.width(), 4);
    assert_eq!(buf.height(), 3);
    for y in 0..3 {
        for x in 0..4 {
            assert_eq!(buf.get(x, y), Cell { symbol: ' ', fg: Color::Reset });
        }
    }
}

#[test]
fn set_changes_one_cell() {
    let mut buf = CellBuffer::new(5, 2);
    let c = Cell { symbol: 'x', fg: Color::Red };
    buf.set(3, 1, c);
    for y in 0..2 {
        for x in 0..5 {
            let want = if (x, y) == (3, 1) { c } else { Cell { symbol: ' ', fg: Color::Reset } };
            assert_eq!(buf.get(x, y), want);
        }
    }
}

#[test]
fn render_paints_the_diagram() {
    let buf = rendered(HookFamily::new());
    assert_eq!((buf.width(), buf.height()), (23, 10));
    for y in 0..GRID_HEIGHT {
        for x in 0..GRID_WIDTH {
            assert_eq!(buf.get(x, y).symbol, expected_symbol(x, y));
        }
    }
    let row7: String = (0..GRID_WIDTH).map(|x| buf.get(x, 7).symbol).collect();
    assert_eq!(row7, "┄┄┄█─┼─█─┴─█───█───█┄┄┄");
}

#[test]
fn render_highlights_exactly_the_selection() {
    for p in HookFamily::catalog() {
        let buf = rendered(p);
        let (sx, sy) = p.to_xy();
        let mut highlighted = Vec::new();
        for y in 0..GRID_HEIGHT {
            for x in 0..GRID_WIDTH {
                if buf.get(x, y).fg != Color::Reset {
                    highlighted.push((x, y));
                }
            }
        }
        assert_eq!(highlighted, vec![(sx, sy)]);
        assert_eq!(buf.get(sx, sy).fg, Color::Red);
        assert_eq!(buf.get(sx, sy).symbol, expected_symbol(sx, sy));
    }
}

#[test]
fn selection_cells_are_pipeline_markers() {
    for p in HookFamily::catalog() {
        let (x, y) = p.to_xy();
        assert_eq!(expected_symbol(x, y), '█');
    }
}

#[test]
fn render_overwrites_previous_contents() {
    let mut buf = CellBuffer::new(GRID_WIDTH, GRID_HEIGHT);
    buf.set(22, 0, Cell { symbol: 'z', fg: Color::Red });
    let moved = HookFamily::new().move_by_direction(Direction::Right);
    Diagram::new(moved).render(&mut buf);
    assert_eq!(buf.get(22, 0), Cell { symbol: ' ', fg: Color::Reset });
    assert_eq!(buf.get(9, 1).fg, Color::Reset);
    assert_eq!(buf.get(15, 1).fg, Color::Red);
}
