use vstd::prelude::*;

verus! {

/// Where the board lies on screen, in pixels: its top-left corner and the
/// side of one square cell. The board spans `3 * cell_size` pixels each way.
#[derive(Clone, Copy, Debug, PartialEq, Eq, Structural)]
pub struct BoardLayout {
    pub origin_x: i64,
    pub origin_y: i64,
    pub cell_size: i64,
}

/// The `(row, col)` of the cell under pixel `(x, y)`: the offset from the
/// origin divided by the cell size, rounding down; `None` outside the board's
/// bounding box, which is empty when `cell_size` is not positive.
pub open spec fn cell_at_pixel(x: int, y: int, layout: BoardLayout) -> Option<(int, int)> {
    let size = layout.cell_size as int;
    let dx = x - layout.origin_x;
    let dy = y - layout.origin_y;
    if size > 0 && 0 <= dx < 3 * size && 0 <= dy < 3 * size {
        Some((dy / size, dx / size))
    } else {
        None
    }
}

/// The cell under pixel `(x, y)` of a board laid out as `layout`, as
/// `(row, col)`; `None` when the pixel is off the board.
pub fn map_pixel_to_cell(x: i64, y: i64, layout: &BoardLayout) -> (r: Option<(usize, usize)>)
    ensures
        match cell_at_pixel(x as int, y as int, *layout) {
            None => r is None,
            Some(rc) => r == Some((rc.0 as usize, rc.1 as usize)),
        },
        r matches Some(rc) ==> rc.0 < 3 && rc.1 < 3,
{
    if layout.cell_size <= 0 {
        return None;
    }
    let dx: i128 = x as i128 - layout.origin_x as i128;
    let dy: i128 = y as i128 - layout.origin_y as i128;
    let span: i128 = 3 * (layout.cell_size as i128);
    if dx < 0 || dx >= span || dy < 0 || dy >= span {
        return None;
    }
    let size = layout.cell_size as u128;
    let (ux, uy) = (dx as u128, dy as u128);
    proof {
        lemma_below_three_cells(ux as int, size as int);
        lemma_below_three_cells(uy as int, size as int);
    }
    let row = (uy / size) as usize;
    let col = (ux / size) as usize;
    Some((row, col))
}

proof fn lemma_below_three_cells(d: int, size: int)
    requires
        size > 0,
        0 <= d < 3 * size,
    ensures
        0 <= d / size < 3,
{
    assert(0 <= d / size < 3) by (nonlinear_arith)
        requires
            size > 0,
            0 <= d < 3 * size,
    ;
}

/// The top-left pixel of each cell maps to that cell, and no pixel at or
/// beyond the board's right or bottom edge maps to any cell.
pub proof fn lemma_cell_origins_and_edges(layout: BoardLayout, row: int, col: int, x: int, y: int)
    requires
        layout.cell_size > 0,
        0 <= row < 3,
        0 <= col < 3,
    ensures
        cell_at_pixel(
            layout.origin_x + col * layout.cell_size,
            layout.origin_y + row * layout.cell_size,
            layout,
        ) == Some((row, col)),
        x >= layout.origin_x + 3 * layout.cell_size ==> cell_at_pixel(x, y, layout) is None,
        y >= layout.origin_y + 3 * layout.cell_size ==> cell_at_pixel(x, y, layout) is None,
{
    let size = layout.cell_size as int;
    assert((row * size) / size == row && 0 <= row * size < 3 * size) by (nonlinear_arith)
        requires
            size > 0,
            0 <= row < 3,
    ;
    assert((col * size) / size == col && 0 <= col * size < 3 * size) by (nonlinear_arith)
        requires
            size > 0,
            0 <= col < 3,
    ;
}

} // verus!
