//! The mathematical model of a position: a grid of cells, what stands on a
//! square, and what a move and the opening layout do to the grid.

use vstd::prelude::*;
use crate::data::{Color, PieceKind, Square};

verus! {

/// The mathematical model of a grid: a sequence of files, each a sequence of cells.
pub type Grid = Seq<Seq<Option<(PieceKind, Color)>>>;

/// Whether `sq` lies on the 8×8 board.
pub open spec fn on_board(sq: Square) -> bool {
    sq.0 <= 7 && sq.1 <= 7
}

/// Whether `grid` has eight files of eight cells each.
pub open spec fn grid_wf(grid: Grid) -> bool {
    &&& grid.len() == 8
    &&& forall|x: int| 0 <= x < 8 ==> (#[trigger] grid[x]).len() == 8
}

/// What stands at file `x`, rank `y`; nothing stands outside the board.
pub open spec fn occupant(grid: Grid, x: int, y: int) -> Option<(PieceKind, Color)> {
    if 0 <= x < 8 && 0 <= y < 8 {
        grid[x][y]
    } else {
        None
    }
}

/// What stands on `sq`.
pub open spec fn piece_on(grid: Grid, sq: Square) -> Option<(PieceKind, Color)> {
    occupant(grid, sq.0 as int, sq.1 as int)
}

/// The grid with the cell at file `x`, rank `y` replaced by `cell`.
pub open spec fn with_cell(grid: Grid, x: int, y: int, cell: Option<(PieceKind, Color)>) -> Grid {
    grid.update(x, grid[x].update(y, cell))
}

/// The grid after the piece on `from` has gone to `to`: `from` is left empty
/// and `to` holds the piece, whatever stood there. Nothing changes where
/// `from` holds no piece or `to` lies outside the board.
pub open spec fn relocate(grid: Grid, from: Square, to: Square) -> Grid {
    if piece_on(grid, from) is Some && on_board(to) {
        with_cell(
            with_cell(grid, from.0 as int, from.1 as int, None),
            to.0 as int,
            to.1 as int,
            piece_on(grid, from),
        )
    } else {
        grid
    }
}

/// The grid of an empty board.
pub open spec fn empty_grid() -> Grid {
    Seq::new(8, |x: int| Seq::new(8, |y: int| None))
}

/// The kind of piece that starts on file `x` of a side's back rank.
pub open spec fn back_rank_kind(x: int) -> PieceKind {
    if x == 0 || x == 7 {
        PieceKind::Rook
    } else if x == 1 || x == 6 {
        PieceKind::Knight
    } else if x == 2 || x == 5 {
        PieceKind::Bishop
    } else if x == 3 {
        PieceKind::Queen
    } else {
        PieceKind::King
    }
}

/// What the standard opening position places at file `x`, rank `y`: White's
/// back rank on rank 0 with its pawns on rank 1, Black's back rank on rank 7
/// with its pawns on rank 6, and nothing on the four ranks between.
pub open spec fn opening_piece(x: int, y: int) -> Option<(PieceKind, Color)> {
    if y == 0 {
        Some((back_rank_kind(x), Color::White))
    } else if y == 1 {
        Some((PieceKind::Pawn, Color::White))
    } else if y == 6 {
        Some((PieceKind::Pawn, Color::Black))
    } else if y == 7 {
        Some((back_rank_kind(x), Color::Black))
    } else {
        None
    }
}

/// What stands at file `x`, rank `y` once the opening position has been laid
/// over `grid`: the opening piece of that cell, or what the cell held where
/// the opening position leaves it empty.
pub open spec fn opening_cell(grid: Grid, x: int, y: int) -> Option<(PieceKind, Color)> {
    match opening_piece(x, y) {
        Some(piece) => Some(piece),
        None => grid[x][y],
    }
}

/// The grid with the opening position laid over it.
pub open spec fn with_opening_layout(grid: Grid) -> Grid {
    Seq::new(8, |x: int| Seq::new(8, |y: int| opening_cell(grid, x, y)))
}

/// What a move does to the cells of a whole grid: the destination takes the
/// piece of the origin, the origin is left empty, and every other square
/// keeps what it held. The grid stays whole.
pub proof fn lemma_relocate_cells(grid: Grid, from: Square, to: Square, sq: Square)
    requires
        grid_wf(grid),
        piece_on(grid, from) is Some,
        on_board(to),
    ensures
        grid_wf(relocate(grid, from, to)),
        piece_on(relocate(grid, from, to), sq) == (if sq == to {
            piece_on(grid, from)
        } else if sq == from {
            None
        } else {
            piece_on(grid, sq)
        }),
{
}

} // verus!
