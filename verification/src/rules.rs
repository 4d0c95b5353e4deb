//! The movement rules: which squares a piece reaches, stated over the model
//! of a position.

use vstd::prelude::*;
use crate::data::{Color, PieceKind, Square};
use crate::grid::{grid_wf, occupant, on_board, piece_on, Grid};

verus! {

/// The sign of `d`: 1, 0 or -1.
pub open spec fn signum(d: int) -> int {
    if d > 0 {
        1
    } else if d < 0 {
        -1
    } else {
        0
    }
}

/// The absolute value of `d`.
pub open spec fn magnitude(d: int) -> int {
    if d < 0 {
        -d
    } else {
        d
    }
}

/// How many files `to` lies from `from`, counted towards higher files.
pub open spec fn file_delta(from: Square, to: Square) -> int {
    to.0 - from.0
}

/// How many ranks `to` lies from `from`, counted towards higher ranks.
pub open spec fn rank_delta(from: Square, to: Square) -> int {
    to.1 - from.1
}

/// The direction from `from` to `to`, as a step of -1, 0 or 1 along each axis.
pub open spec fn heading(from: Square, to: Square) -> (int, int) {
    (signum(file_delta(from, to)), signum(rank_delta(from, to)))
}

/// The number of king steps between the two squares.
pub open spec fn span(from: Square, to: Square) -> int {
    let df = magnitude(file_delta(from, to));
    let dr = magnitude(rank_delta(from, to));
    if df >= dr {
        df
    } else {
        dr
    }
}

/// The coordinate reached from `start` after `k` steps in direction `dir`.
pub open spec fn stride(start: int, dir: int, k: int) -> int {
    if dir > 0 {
        start + k
    } else if dir < 0 {
        start - k
    } else {
        start
    }
}

/// Whether the square `k` steps from `from` in direction `dir` holds no piece.
pub open spec fn vacant_at_step(grid: Grid, from: Square, dir: (int, int), k: int) -> bool {
    occupant(grid, stride(from.0 as int, dir.0, k), stride(from.1 as int, dir.1, k)) is None
}

/// Whether every square strictly between `from` and `to` is empty, for two
/// squares on a common file, rank or diagonal.
pub open spec fn path_clear(grid: Grid, from: Square, to: Square) -> bool {
    forall|k: int|
        1 <= k < span(from, to) ==> #[trigger] vacant_at_step(grid, from, heading(from, to), k)
}

/// The square `k` steps from `from` in direction `dir`, where it lies on the board.
pub open spec fn square_at_step(from: Square, dir: (int, int), k: int) -> Square {
    (stride(from.0 as int, dir.0, k) as u8, stride(from.1 as int, dir.1, k) as u8)
}

/// Two distinct squares on a common file or a common rank.
pub open spec fn same_line(from: Square, to: Square) -> bool {
    from != to && (from.0 == to.0 || from.1 == to.1)
}

/// Two distinct squares on a common diagonal.
pub open spec fn same_diagonal(from: Square, to: Square) -> bool {
    from != to && magnitude(file_delta(from, to)) == magnitude(rank_delta(from, to))
}

/// The L-shaped jump of a knight.
pub open spec fn knight_jump(from: Square, to: Square) -> bool {
    let df = magnitude(file_delta(from, to));
    let dr = magnitude(rank_delta(from, to));
    (df == 1 && dr == 2) || (df == 2 && dr == 1)
}

/// A step to one of the up to eight neighbouring squares.
pub open spec fn king_step(from: Square, to: Square) -> bool {
    from != to && magnitude(file_delta(from, to)) <= 1 && magnitude(rank_delta(from, to)) <= 1
}

/// The rank on which the pawns of `color` start.
pub open spec fn pawn_home_rank(color: Color) -> int {
    match color {
        Color::White => 1,
        Color::Black => 6,
    }
}

/// The direction along the ranks in which the pawns of `color` advance.
pub open spec fn pawn_direction(color: Color) -> int {
    match color {
        Color::White => 1,
        Color::Black => -1,
    }
}

/// A pawn's advance: one rank towards the opponent's side on its own file, or
/// two ranks when it stands on its home rank. Occupied squares do not stop it,
/// and it has no diagonal capture.
pub open spec fn pawn_advance(color: Color, from: Square, to: Square) -> bool {
    &&& to.0 == from.0
    &&& {
        ||| rank_delta(from, to) == pawn_direction(color)
        ||| (from.1 == pawn_home_rank(color) && rank_delta(from, to) == 2 * pawn_direction(color))
    }
}

/// Whether the square `dx` files and `dy` ranks from `from` lies on the board.
pub open spec fn offset_on_board(from: Square, dx: int, dy: int) -> bool {
    0 <= from.0 + dx <= 7 && 0 <= from.1 + dy <= 7
}

/// The square `dx` files and `dy` ranks from `from`, where it lies on the board.
pub open spec fn offset_square(from: Square, dx: int, dy: int) -> Square {
    ((from.0 + dx) as u8, (from.1 + dy) as u8)
}

/// A slide along a file or a rank with nothing in between.
pub open spec fn line_slide(grid: Grid, from: Square, to: Square) -> bool {
    same_line(from, to) && path_clear(grid, from, to)
}

/// A slide along a diagonal with nothing in between.
pub open spec fn diagonal_slide(grid: Grid, from: Square, to: Square) -> bool {
    same_diagonal(from, to) && path_clear(grid, from, to)
}

/// A slide from `from` to the square `to` of the board in the direction `dir`,
/// along a file, a rank or a diagonal, with nothing in between.
pub open spec fn slides_towards(grid: Grid, from: Square, to: Square, dir: (int, int)) -> bool {
    &&& on_board(to)
    &&& same_line(from, to) || same_diagonal(from, to)
    &&& heading(from, to) == dir
    &&& path_clear(grid, from, to)
}

/// Whether a piece of the given kind and colour standing on `from` moves to
/// `to` by its movement pattern. A sliding piece stops at the first occupied
/// square, which it may still enter; a knight and a king leap.
pub open spec fn pattern_allows(
    grid: Grid,
    kind: PieceKind,
    color: Color,
    from: Square,
    to: Square,
) -> bool {
    match kind {
        PieceKind::Pawn => pawn_advance(color, from, to),
        PieceKind::Knight => knight_jump(from, to),
        PieceKind::Bishop => diagonal_slide(grid, from, to),
        PieceKind::Rook => line_slide(grid, from, to),
        PieceKind::Queen => line_slide(grid, from, to) || diagonal_slide(grid, from, to),
        PieceKind::King => king_step(from, to),
    }
}

/// Whether `to` is a pseudo-legal destination of the piece on `from`: `to` is
/// a square of the board and the piece's movement pattern leads there. An
/// empty origin reaches nothing.
pub open spec fn reaches(grid: Grid, from: Square, to: Square) -> bool {
    match piece_on(grid, from) {
        Some((kind, color)) => on_board(to) && pattern_allows(grid, kind, color, from, to),
        None => false,
    }
}

/// Whether pieces of this kind slide: bishops, rooks and queens.
pub open spec fn is_slider(kind: PieceKind) -> bool {
    kind == PieceKind::Bishop || kind == PieceKind::Rook || kind == PieceKind::Queen
}

/// An empty origin reaches nothing, wherever it lies.
pub proof fn lemma_empty_origin_reaches_nothing(grid: Grid, from: Square, to: Square)
    requires
        piece_on(grid, from) is None,
    ensures
        !reaches(grid, from, to),
{
}

/// Every destination lies on the board, and none is the origin itself.
pub proof fn lemma_reaches_on_board(grid: Grid, from: Square, to: Square)
    requires
        reaches(grid, from, to),
    ensures
        on_board(from),
        on_board(to),
        to != from,
{
}

/// On a board that is empty but for the rook itself, a rook reaches exactly
/// the other squares of its file and of its rank.
pub proof fn lemma_rook_on_open_board(grid: Grid, color: Color, from: Square, to: Square)
    requires
        grid_wf(grid),
        piece_on(grid, from) == Some((PieceKind::Rook, color)),
        forall|x: int, y: int|
            0 <= x < 8 && 0 <= y < 8 && (x, y) != (from.0 as int, from.1 as int)
                ==> #[trigger] occupant(grid, x, y) is None,
    ensures
        reaches(grid, from, to) <==> on_board(to) && same_line(from, to),
{
    if on_board(to) && same_line(from, to) {
        assert forall|k: int| 1 <= k < span(from, to) implies #[trigger] vacant_at_step(
            grid,
            from,
            heading(from, to),
            k,
        ) by {
            let x = stride(from.0 as int, heading(from, to).0, k);
            let y = stride(from.1 as int, heading(from, to).1, k);
            assert(0 <= x < 8 && 0 <= y < 8 && (x, y) != (from.0 as int, from.1 as int));
        }
    }
}

/// The first occupied square on a ray ends it: a sliding piece that reaches
/// an occupied square reaches no square further out in the same direction.
pub proof fn lemma_blocker_ends_ray(grid: Grid, from: Square, blocker: Square, beyond: Square)
    requires
        piece_on(grid, from) matches Some((kind, _)) && is_slider(kind),
        reaches(grid, from, blocker),
        piece_on(grid, blocker) is Some,
        heading(from, beyond) == heading(from, blocker),
        span(from, beyond) > span(from, blocker),
    ensures
        !reaches(grid, from, beyond),
{
    if reaches(grid, from, beyond) {
        let k = span(from, blocker);
        assert(vacant_at_step(grid, from, heading(from, beyond), k));
    }
}

/// Where a pawn goes: from its home rank to the next two squares of its file
/// towards the opponent's side, from any other rank to the next one only, and
/// nowhere from the last rank of the board. What stands on those squares does
/// not matter.
pub proof fn lemma_pawn_destinations(grid: Grid, color: Color, from: Square, to: Square)
    requires
        piece_on(grid, from) == Some((PieceKind::Pawn, color)),
    ensures
        color == Color::White && from.1 == 1 ==> (reaches(grid, from, to) <==> to == (from.0, 2u8)
            || to == (from.0, 3u8)),
        color == Color::White && from.1 != 1 ==> (reaches(grid, from, to) <==> from.1 < 7 && to
            == (from.0, (from.1 + 1) as u8)),
        color == Color::Black && from.1 == 6 ==> (reaches(grid, from, to) <==> to == (from.0, 5u8)
            || to == (from.0, 4u8)),
        color == Color::Black && from.1 != 6 ==> (reaches(grid, from, to) <==> from.1 > 0 && to
            == (from.0, (from.1 - 1) as u8)),
{
}

} // verus!
