//! The chess board and its move generator.

use vstd::prelude::*;
use crate::data::{Board, Color, Move, PieceKind, Square};
use crate::grid::{
    back_rank_kind, empty_grid, grid_wf, on_board, opening_cell, piece_on, with_cell,
    with_opening_layout, Grid,
};
use crate::rules::{
    diagonal_slide, heading, king_step, knight_jump, line_slide, offset_on_board, offset_square,
    pawn_advance, reaches, slides_towards, span, square_at_step, stride, vacant_at_step,
};

verus! {

/// A position: the grid of cells, the side to move and what the interface has
/// selected.
#[derive(Debug, PartialEq)]
pub struct ChessBoard {
    pub board: Board,
    pub moves: Vec<Move>,
    pub selected: Option<Square>,
    pub turn: Color,
    pub game_over: bool,
}

/// The mathematical model of a [`ChessBoard`].
pub struct BoardView {
    pub grid: Grid,
    pub moves: Seq<Move>,
    pub selected: Option<Square>,
    pub turn: Color,
    pub game_over: bool,
}

/// The model of a grid of cells: each file by its view.
pub open spec fn grid_of(board: Board) -> Grid {
    Seq::new(board@.len(), |x: int| board@[x]@)
}

impl View for ChessBoard {
    type V = BoardView;

    open spec fn view(&self) -> BoardView {
        BoardView {
            grid: grid_of(self.board),
            moves: self.moves@,
            selected: self.selected,
            turn: self.turn,
            game_over: self.game_over,
        }
    }
}

/// Replaces the cell at file `x`, rank `y`.
pub(crate) fn set_cell(board: &mut Board, x: usize, y: usize, cell: Option<(PieceKind, Color)>)
    requires
        grid_wf(grid_of(*old(board))),
        x < 8,
        y < 8,
    ensures
        grid_of(*final(board)) == with_cell(grid_of(*old(board)), x as int, y as int, cell),
{
    assert(grid_of(*board)[x as int] == board@[x as int]@);
    board[x][y] = cell;
}

/// An empty grid: eight files of eight empty cells.
pub fn gen_matrix() -> (matrix: Board)
    ensures
        grid_of(matrix) == empty_grid(),
{
    let mut matrix: Board = Vec::new();
    while matrix.len() < 8
        invariant
            matrix@.len() <= 8,
            forall|x: int|
                0 <= x < matrix@.len() ==> (#[trigger] matrix@[x])@ == Seq::new(
                    8,
                    |y: int| None::<(PieceKind, Color)>,
                ),
        decreases 8 - matrix@.len(),
    {
        let mut row: Vec<Option<(PieceKind, Color)>> = Vec::new();
        while row.len() < 8
            invariant
                row@.len() <= 8,
                forall|y: int| 0 <= y < row@.len() ==> (#[trigger] row@[y]) is None,
            decreases 8 - row@.len(),
        {
            row.push(None);
        }
        matrix.push(row);
    }
    matrix
}

/// The kind of piece that starts on file `x` of a side's back rank.
fn back_rank_piece(x: usize) -> (kind: PieceKind)
    requires
        x < 8,
    ensures
        kind == back_rank_kind(x as int),
{
    if x == 0 || x == 7 {
        PieceKind::Rook
    } else if x == 1 || x == 6 {
        PieceKind::Knight
    } else if x == 2 || x == 5 {
        PieceKind::Bishop
    } else if x == 3 {
        PieceKind::Queen
    } else {
        PieceKind::King
    }
}

/// Lays the standard opening position over `board`: each side's back rank
/// (rook, knight, bishop, queen, king, bishop, knight, rook) with a rank of
/// pawns in front of it, White on ranks 0 and 1 and Black on ranks 7 and 6.
/// The four ranks between keep what they held.
pub fn populate_board(board: &mut Board)
    requires
        grid_wf(grid_of(*old(board))),
    ensures
        grid_of(*final(board)) == with_opening_layout(grid_of(*old(board))),
{
    let ghost before = grid_of(*board);
    let mut x: usize = 0;
    while x < 8
        invariant
            x <= 8,
            before == grid_of(*old(board)),
            grid_wf(before),
            grid_wf(grid_of(*board)),
            forall|i: int, j: int|
                0 <= i < 8 && 0 <= j < 8 ==> #[trigger] grid_of(*board)[i][j] == (if i < x {
                    opening_cell(before, i, j)
                } else {
                    before[i][j]
                }),
        decreases 8 - x,
    {
        let kind = back_rank_piece(x);
        set_cell(board, x, 0, Some((kind, Color::White)));
        set_cell(board, x, 1, Some((PieceKind::Pawn, Color::White)));
        set_cell(board, x, 6, Some((PieceKind::Pawn, Color::Black)));
        set_cell(board, x, 7, Some((kind, Color::Black)));
        x += 1;
    }
    proof {
        let after = grid_of(*board);
        let laid = with_opening_layout(before);
        assert forall|i: int| 0 <= i < 8 implies #[trigger] after[i] =~= laid[i] by {
            assert forall|j: int| 0 <= j < 8 implies after[i][j] == laid[i][j] by {}
        }
        assert(after =~= laid);
    }
}

/// A copy of a grid of cells, whatever its shape.
pub fn copy_board(board: &Board) -> (copy: Board)
    ensures
        grid_of(copy) == grid_of(*board),
{
    let mut copy: Board = Vec::new();
    let mut x: usize = 0;
    while x < board.len()
        invariant
            x <= board@.len(),
            copy@.len() == x,
            forall|i: int| 0 <= i < x ==> (#[trigger] copy@[i])@ == board@[i]@,
        decreases board@.len() - x,
    {
        let file = &board[x];
        let mut cells: Vec<Option<(PieceKind, Color)>> = Vec::new();
        let mut y: usize = 0;
        while y < file.len()
            invariant
                y <= file@.len(),
                cells@.len() == y,
                forall|j: int| 0 <= j < y ==> #[trigger] cells@[j] == file@[j],
            decreases file@.len() - y,
        {
            cells.push(file[y]);
            y += 1;
        }
        copy.push(cells);
        x += 1;
    }
    copy
}

/// A copy of a list of moves.
fn copy_moves(moves: &Vec<Move>) -> (copy: Vec<Move>)
    ensures
        copy@ == moves@,
{
    let mut copy: Vec<Move> = Vec::new();
    let mut i: usize = 0;
    while i < moves.len()
        invariant
            i <= moves@.len(),
            copy@.len() == i,
            forall|j: int| 0 <= j < i ==> #[trigger] copy@[j] == moves@[j],
        decreases moves@.len() - i,
    {
        copy.push(moves[i]);
        i += 1;
    }
    copy
}

impl Default for ChessBoard {
    /// A board without grid: no files, White to move, nothing selected.
    fn default() -> (board: Self)
        ensures
            board@ == (BoardView {
                grid: Seq::empty(),
                moves: Seq::empty(),
                selected: None,
                turn: Color::White,
                game_over: false,
            }),
    {
        let board =
            Self {
                board: Vec::new(),
                moves: Vec::new(),
                selected: None,
                turn: Color::White,
                game_over: false,
            };
        assert(board@.grid =~= Seq::empty());
        board
    }
}

impl Clone for ChessBoard {
    /// A copy with the same grid, recorded moves, selection, turn and status.
    fn clone(&self) -> (copy: Self)
        ensures
            copy@ == self@,
    {
        Self {
            board: copy_board(&self.board),
            moves: copy_moves(&self.moves),
            selected: self.selected,
            turn: self.turn,
            game_over: self.game_over,
        }
    }
}

impl ChessBoard {
    /// Whether the grid has eight files of eight cells each.
    pub open spec fn wf(&self) -> bool {
        grid_wf(self@.grid)
    }

    /// Whether the grid has eight files of eight cells each.
    pub fn is_well_formed(&self) -> (whole: bool)
        ensures
            whole == self.wf(),
    {
        if self.board.len() != 8 {
            return false;
        }
        let mut x: usize = 0;
        while x < 8
            invariant
                x <= 8,
                self.board@.len() == 8,
                forall|i: int| 0 <= i < x ==> (#[trigger] self@.grid[i]).len() == 8,
            decreases 8 - x,
        {
            if self.board[x].len() != 8 {
                assert(self@.grid[x as int].len() != 8);
                return false;
            }
            x += 1;
        }
        true
    }

    /// A board over the given grid, with White to move, nothing selected and
    /// no move recorded.
    pub fn new(board: Board) -> (fresh: Self)
        ensures
            fresh.board == board,
            fresh@ == (BoardView {
                grid: grid_of(board),
                moves: Seq::empty(),
                selected: None,
                turn: Color::White,
                game_over: false,
            }),
    {
        Self { board, moves: Vec::new(), selected: None, turn: Color::White, game_over: false }
    }

    /// Marks `square` as the selected one.
    pub fn select(&mut self, square: Square)
        ensures
            final(self)@ == (BoardView { selected: Some(square), ..old(self)@ }),
            final(self).board == old(self).board,
    {
        self.selected = Some(square);
    }

    /// What stands on `square`; nothing stands outside the board.
    pub fn piece_at(&self, square: Square) -> (piece: Option<(PieceKind, Color)>)
        requires
            self.wf(),
        ensures
            piece == piece_on(self@.grid, square),
    {
        if square.0 <= 7 && square.1 <= 7 {
            self.board[square.0 as usize][square.1 as usize]
        } else {
            None
        }
    }

    /// The squares that a sliding piece on `from` reaches in one direction:
    /// square by square until the edge of the board or the first occupied
    /// square, which is the last one reached.
    fn cast_ray(&self, from: Square, dx: i8, dy: i8) -> (ray: Vec<Square>)
        requires
            self.wf(),
            on_board(from),
            -1 <= dx <= 1,
            -1 <= dy <= 1,
            dx != 0 || dy != 0,
        ensures
            forall|t: Square|
                #![trigger ray@.contains(t)]
                ray@.contains(t) <==> slides_towards(self@.grid, from, t, (dx as int, dy as int)),
            ray@.no_duplicates(),
    {
        let ghost grid = self@.grid;
        let ghost dir = (dx as int, dy as int);
        let mut ray: Vec<Square> = Vec::new();
        let mut x: i8 = from.0 as i8;
        let mut y: i8 = from.1 as i8;
        let mut open: bool = true;
        while open && 0 <= x + dx && x + dx <= 7 && 0 <= y + dy && y + dy <= 7
            invariant
                self.wf(),
                grid == self@.grid,
                on_board(from),
                dir == (dx as int, dy as int),
                -1 <= dx <= 1,
                -1 <= dy <= 1,
                dx != 0 || dy != 0,
                0 <= x <= 7,
                0 <= y <= 7,
                ray@.len() <= 7,
                x == stride(from.0 as int, dir.0, ray@.len() as int),
                y == stride(from.1 as int, dir.1, ray@.len() as int),
                forall|i: int| 0 <= i < ray@.len() ==> ray@[i] == square_at_step(from, dir, i + 1),
                forall|k: int| 1 <= k < ray@.len() ==> vacant_at_step(grid, from, dir, k),
                open && ray@.len() >= 1 ==> vacant_at_step(grid, from, dir, ray@.len() as int),
                !open ==> ray@.len() >= 1 && !vacant_at_step(grid, from, dir, ray@.len() as int),
            decreases 8 - ray@.len() + (if open { 1int } else { 0int }),
        {
            x = x + dx;
            y = y + dy;
            ray.push((x as u8, y as u8));
            assert(grid[x as int] == self.board@[x as int]@);
            if self.board[x as usize][y as usize].is_some() {
                open = false;
            }
        }
        proof {
            let len = ray@.len() as int;
            assert forall|t: Square| ray@.contains(t) implies slides_towards(
                grid,
                from,
                t,
                dir,
            ) by {
                let i = choose|i: int| 0 <= i < ray@.len() && ray@[i] == t;
                assert(t == square_at_step(from, dir, i + 1));
            }
            assert forall|t: Square| slides_towards(grid, from, t, dir) implies ray@.contains(
                t,
            ) by {
                let n = span(from, t);
                if n > len && !open {
                    assert(vacant_at_step(grid, from, heading(from, t), len));
                }
                assert(ray@[n - 1] == t);
            }
        }
        ray
    }

    /// The squares that a piece sliding along files and ranks reaches from
    /// `from`: the four orthogonal rays, each up to and including the first
    /// occupied square.
    pub fn get_moves_line(&self, from: Square) -> (moves: Vec<Square>)
        requires
            self.wf(),
        ensures
            forall|t: Square|
                #![trigger moves@.contains(t)]
                moves@.contains(t) <==> on_board(from) && on_board(t) && line_slide(
                    self@.grid,
                    from,
                    t,
                ),
            moves@.no_duplicates(),
    {
        if from.0 > 7 || from.1 > 7 {
            return Vec::new();
        }
        let mut moves = self.cast_ray(from, 1, 0);
        let mut towards_low_file = self.cast_ray(from, -1, 0);
        let mut towards_high_rank = self.cast_ray(from, 0, 1);
        let mut towards_low_rank = self.cast_ray(from, 0, -1);
        proof {
            lemma_join_disjoint(moves@, towards_low_file@);
            lemma_join_disjoint(moves@ + towards_low_file@, towards_high_rank@);
            lemma_join_disjoint(
                moves@ + towards_low_file@ + towards_high_rank@,
                towards_low_rank@,
            );
        }
        moves.append(&mut towards_low_file);
        moves.append(&mut towards_high_rank);
        moves.append(&mut towards_low_rank);
        moves
    }

    /// The squares that a piece sliding along diagonals reaches from `from`:
    /// the four diagonal rays, each up to and including the first occupied
    /// square.
    pub fn get_moves_diagonal(&self, from: Square) -> (moves: Vec<Square>)
        requires
            self.wf(),
        ensures
            forall|t: Square|
                #![trigger moves@.contains(t)]
                moves@.contains(t) <==> on_board(from) && on_board(t) && diagonal_slide(
                    self@.grid,
                    from,
                    t,
                ),
            moves@.no_duplicates(),
    {
        if from.0 > 7 || from.1 > 7 {
            return Vec::new();
        }
        let mut moves = self.cast_ray(from, 1, 1);
        let mut high_file_low_rank = self.cast_ray(from, 1, -1);
        let mut low_file_high_rank = self.cast_ray(from, -1, 1);
        let mut low_file_low_rank = self.cast_ray(from, -1, -1);
        proof {
            lemma_join_disjoint(moves@, high_file_low_rank@);
            lemma_join_disjoint(moves@ + high_file_low_rank@, low_file_high_rank@);
            lemma_join_disjoint(
                moves@ + high_file_low_rank@ + low_file_high_rank@,
                low_file_low_rank@,
            );
        }
        moves.append(&mut high_file_low_rank);
        moves.append(&mut low_file_high_rank);
        moves.append(&mut low_file_low_rank);
        moves
    }

    /// The pseudo-legal destinations of the piece on `square`: the squares of
    /// the board that its movement pattern reaches. An empty square, or one
    /// outside the board, has none.
    pub fn get_moves(&self, square: Square) -> (moves: Vec<Square>)
        requires
            self.wf(),
        ensures
            forall|t: Square|
                #![trigger moves@.contains(t)]
                moves@.contains(t) <==> reaches(self@.grid, square, t),
            moves@.no_duplicates(),
            piece_on(self@.grid, square) is None ==> moves@ == Seq::<Square>::empty(),
            forall|i: int| 0 <= i < moves@.len() ==> on_board(#[trigger] moves@[i]),
    {
        let moves = match self.piece_at(square) {
            None => Vec::new(),
            Some((PieceKind::Pawn, color)) => get_pawn_moves(square, color),
            Some((PieceKind::Knight, _)) => get_knight_moves(square),
            Some((PieceKind::Bishop, _)) => self.get_moves_diagonal(square),
            Some((PieceKind::Rook, _)) => self.get_moves_line(square),
            Some((PieceKind::Queen, _)) => {
                let mut moves = self.get_moves_line(square);
                let mut diagonal = self.get_moves_diagonal(square);
                proof {
                    lemma_join_disjoint(moves@, diagonal@);
                }
                moves.append(&mut diagonal);
                moves
            },
            Some((PieceKind::King, _)) => get_king_moves(square),
        };
        proof {
            assert forall|i: int| 0 <= i < moves@.len() implies on_board(#[trigger] moves@[i]) by {
                assert(moves@.contains(moves@[i]));
            }
        }
        moves
    }
}

/// Joining two duplicate-free sequences that share no element gives a
/// duplicate-free sequence that holds what either held.
proof fn lemma_join_disjoint(a: Seq<Square>, b: Seq<Square>)
    requires
        a.no_duplicates(),
        b.no_duplicates(),
        forall|t: Square| #![trigger a.contains(t)] !(a.contains(t) && b.contains(t)),
    ensures
        (a + b).no_duplicates(),
        forall|t: Square|
            #![trigger (a + b).contains(t)]
            (a + b).contains(t) <==> a.contains(t) || b.contains(t),
{
    assert forall|i: int, j: int| 0 <= i < a.len() && 0 <= j < b.len() implies a[i] != b[j] by {
        assert(a.contains(a[i]));
        assert(b.contains(b[j]));
    }
    vstd::seq_lib::lemma_no_dup_in_concat(a, b);
    assert forall|t: Square| #![trigger (a + b).contains(t)] (a + b).contains(t) <==> a.contains(t)
        || b.contains(t) by {
        vstd::seq_lib::lemma_seq_concat_contains_all_elements(a, b, t);
    }
}

/// Adds to `moves` the square `dx` files and `dy` ranks from `from`, if it
/// lies on the board.
fn push_offset(moves: &mut Vec<Square>, from: Square, dx: i8, dy: i8)
    requires
        -2 <= dx <= 2,
        -2 <= dy <= 2,
    ensures
        forall|t: Square|
            #![trigger final(moves)@.contains(t)]
            final(moves)@.contains(t) <==> old(moves)@.contains(t) || (offset_on_board(
                from,
                dx as int,
                dy as int,
            ) && t == offset_square(from, dx as int, dy as int)),
        old(moves)@.no_duplicates() && !(offset_on_board(from, dx as int, dy as int) && old(
            moves,
        )@.contains(offset_square(from, dx as int, dy as int))) ==> final(moves)@.no_duplicates(),
{
    let x: i16 = from.0 as i16 + dx as i16;
    let y: i16 = from.1 as i16 + dy as i16;
    if 0 <= x && x <= 7 && 0 <= y && y <= 7 {
        let ghost before = moves@;
        moves.push((x as u8, y as u8));
        proof {
            assert forall|t: Square| moves@.contains(t) <==> before.contains(t) || t == (
                x as u8,
                y as u8,
            ) by {
                vstd::seq_lib::lemma_seq_contains_after_push(before, (x as u8, y as u8), t);
            }
            assert(forall|i: int| 0 <= i < before.len() ==> before.contains(#[trigger] before[i]));
        }
    }
}

/// The squares of the board that a king on `from` steps to: its up to eight
/// neighbours.
pub fn get_king_moves(from: Square) -> (moves: Vec<Square>)
    ensures
        forall|t: Square|
            #![trigger moves@.contains(t)]
            moves@.contains(t) <==> on_board(t) && king_step(from, t),
        moves@.no_duplicates(),
{
    let mut moves: Vec<Square> = Vec::new();
    push_offset(&mut moves, from, 1, 0);
    push_offset(&mut moves, from, -1, 0);
    push_offset(&mut moves, from, 0, 1);
    push_offset(&mut moves, from, 0, -1);
    push_offset(&mut moves, from, 1, 1);
    push_offset(&mut moves, from, 1, -1);
    push_offset(&mut moves, from, -1, 1);
    push_offset(&mut moves, from, -1, -1);
    moves
}

/// The squares of the board that a knight on `from` jumps to.
pub fn get_knight_moves(from: Square) -> (moves: Vec<Square>)
    ensures
        forall|t: Square|
            #![trigger moves@.contains(t)]
            moves@.contains(t) <==> on_board(t) && knight_jump(from, t),
        moves@.no_duplicates(),
{
    let mut moves: Vec<Square> = Vec::new();
    push_offset(&mut moves, from, 2, 1);
    push_offset(&mut moves, from, 2, -1);
    push_offset(&mut moves, from, -2, 1);
    push_offset(&mut moves, from, -2, -1);
    push_offset(&mut moves, from, 1, 2);
    push_offset(&mut moves, from, 1, -2);
    push_offset(&mut moves, from, -1, 2);
    push_offset(&mut moves, from, -1, -2);
    moves
}

/// The squares of the board that a pawn of `color` on `from` advances to: the
/// next square on its file towards the opponent's side and, from its home
/// rank, the one after it.
pub fn get_pawn_moves(from: Square, color: Color) -> (moves: Vec<Square>)
    ensures
        forall|t: Square|
            #![trigger moves@.contains(t)]
            moves@.contains(t) <==> on_board(t) && pawn_advance(color, from, t),
        moves@.no_duplicates(),
{
    let mut moves: Vec<Square> = Vec::new();
    match color {
        Color::White => {
            if from.1 == 1 {
                push_offset(&mut moves, from, 0, 2);
            }
            push_offset(&mut moves, from, 0, 1);
        },
        Color::Black => {
            if from.1 == 6 {
                push_offset(&mut moves, from, 0, -2);
            }
            push_offset(&mut moves, from, 0, -1);
        },
    }
    moves
}

} // verus!
