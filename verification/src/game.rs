//! One game between two seated players.

use vstd::prelude::*;
use crate::board::{gen_matrix, populate_board, set_cell, BoardView, ChessBoard};
use crate::data::{Color, Square};
use crate::grid::{empty_grid, on_board, piece_on, relocate, with_opening_layout};
use crate::rules::reaches;

verus! {

/// Whether `moves` holds `square`.
fn holds_square(moves: &Vec<Square>, square: Square) -> (found: bool)
    ensures
        found == moves@.contains(square),
{
    let mut i: usize = 0;
    while i < moves.len()
        invariant
            i <= moves@.len(),
            forall|j: int| 0 <= j < i ==> moves@[j] != square,
        decreases moves@.len() - i,
    {
        if moves[i].0 == square.0 && moves[i].1 == square.1 {
            return true;
        }
        i += 1;
    }
    false
}

/// Why a requested move was declined.
#[derive(Clone, Copy, Debug, PartialEq, Eq, Structural)]
pub enum MoveError {
    /// No game has the identifier that the request names.
    NotFound,
    /// The requesting player holds neither seat of the game.
    NotInLobby,
    /// It is the other side's turn.
    NotYourTurn,
    /// The origin is empty or holds a piece of the side that is not to move,
    /// or the destination is not one that the piece reaches on the board.
    InvalidMove,
    /// The move would be accepted, but the game is over.
    GameOver,
}

/// One game: its identifier, its position, the two seated players and the
/// colour that the first of them plays.
#[derive(Debug, PartialEq)]
pub struct ChessGame {
    pub id: String,
    pub board: ChessBoard,
    pub color_player_1: Color,
    pub player1: String,
    pub player2: String,
    pub is_started: bool,
    pub is_over: bool,
}

/// The mathematical model of a [`ChessGame`].
pub struct GameView {
    pub id: Seq<char>,
    pub board: BoardView,
    pub color_player_1: Color,
    pub player1: Seq<char>,
    pub player2: Seq<char>,
    pub is_started: bool,
    pub is_over: bool,
}

impl View for ChessGame {
    type V = GameView;

    open spec fn view(&self) -> GameView {
        GameView {
            id: self.id@,
            board: self.board@,
            color_player_1: self.color_player_1,
            player1: self.player1@,
            player2: self.player2@,
            is_started: self.is_started,
            is_over: self.is_over,
        }
    }
}

impl Default for ChessGame {
    /// A game without identifier, players or grid, in which the first seat
    /// plays White.
    fn default() -> (game: Self)
        ensures
            game@ == (GameView {
                id: Seq::empty(),
                board: BoardView {
                    grid: Seq::empty(),
                    moves: Seq::empty(),
                    selected: None,
                    turn: Color::White,
                    game_over: false,
                },
                color_player_1: Color::White,
                player1: Seq::empty(),
                player2: Seq::empty(),
                is_started: false,
                is_over: false,
            }),
    {
        Self {
            id: String::new(),
            board: ChessBoard::default(),
            color_player_1: Color::White,
            player1: String::new(),
            player2: String::new(),
            is_started: false,
            is_over: false,
        }
    }
}

impl Clone for ChessGame {
    /// A copy with the same identifier, position, players and status.
    fn clone(&self) -> (copy: Self)
        ensures
            copy@ == self@,
    {
        Self {
            id: self.id.clone(),
            board: self.board.clone(),
            color_player_1: self.color_player_1,
            player1: self.player1.clone(),
            player2: self.player2.clone(),
            is_started: self.is_started,
            is_over: self.is_over,
        }
    }
}

/// Whether the side to move may take the piece on `from` to `to`: `from`
/// holds a piece of the side to move, and `to` is a square of the board that
/// the piece reaches.
pub open spec fn move_allowed(board: BoardView, from: Square, to: Square) -> bool {
    match piece_on(board.grid, from) {
        Some((_, color)) => color == board.turn && on_board(to) && reaches(board.grid, from, to),
        None => false,
    }
}

/// The position after the piece on `from` has gone to `to`; the side to move
/// stays the same.
pub open spec fn board_after_move(board: BoardView, from: Square, to: Square) -> BoardView {
    BoardView { grid: relocate(board.grid, from, to), ..board }
}

impl GameView {
    /// Whether `player` holds one of the two seats.
    pub open spec fn seats(self, player: Seq<char>) -> bool {
        player == self.player1 || player == self.player2
    }

    /// Whether `player` asks to move while a seat that it holds is not to
    /// move: the first seat plays `color_player_1`, the second the other
    /// colour.
    pub open spec fn out_of_turn(self, player: Seq<char>) -> bool {
        ||| (player == self.player1 && self.color_player_1 != self.board.turn)
        ||| (player == self.player2 && self.color_player_1 == self.board.turn)
    }

    /// Why the move that `player` requests is declined, if it is. A player
    /// without a seat is told so first; then a seat that is not to move,
    /// whatever the move; then a move that is not allowed. Only a move that
    /// would otherwise be accepted is declined because the game is over.
    pub open spec fn refusal(self, player: Seq<char>, from: Square, to: Square) -> Option<
        MoveError,
    > {
        if !self.seats(player) {
            Some(MoveError::NotInLobby)
        } else if self.out_of_turn(player) {
            Some(MoveError::NotYourTurn)
        } else if !move_allowed(self.board, from, to) {
            Some(MoveError::InvalidMove)
        } else if self.is_over {
            Some(MoveError::GameOver)
        } else {
            None
        }
    }

    /// A seated player whose seat is not to move is declined as out of turn,
    /// whatever the move and whether or not the game is over.
    pub proof fn lemma_out_of_turn_whatever_the_move(
        self,
        player: Seq<char>,
        from: Square,
        to: Square,
    )
        requires
            self.seats(player),
            self.out_of_turn(player),
        ensures
            self.refusal(player, from, to) == Some(MoveError::NotYourTurn),
    {
    }

    /// A seated player who is to move and asks for a move that is not
    /// allowed is declined for the move, whether or not the game is over.
    pub proof fn lemma_invalid_move_declined(self, player: Seq<char>, from: Square, to: Square)
        requires
            self.seats(player),
            !self.out_of_turn(player),
            !move_allowed(self.board, from, to),
        ensures
            self.refusal(player, from, to) == Some(MoveError::InvalidMove),
    {
    }

    /// A game that is over declines every request, so its board is never
    /// changed again.
    pub proof fn lemma_finished_game_declines(self, player: Seq<char>, from: Square, to: Square)
        requires
            self.is_over,
        ensures
            self.refusal(player, from, to) is Some,
    {
    }

    /// The game after an accepted move from `from` to `to`: the piece has
    /// gone over and the turn has passed to the other side.
    pub open spec fn after_turn(self, from: Square, to: Square) -> GameView {
        GameView {
            board: BoardView {
                grid: relocate(self.board.grid, from, to),
                turn: self.board.turn.spec_opposite(),
                ..self.board
            },
            ..self
        }
    }
}

impl ChessGame {
    /// Whether the game's board has eight files of eight cells each.
    pub open spec fn wf(&self) -> bool {
        self.board.wf()
    }

    /// A game without identifier or players on an empty board, in which the
    /// first seat plays `player1_color` and White is to move.
    pub fn new(player1_color: Color) -> (game: Self)
        ensures
            game.wf(),
            game@ == (GameView {
                id: Seq::empty(),
                board: BoardView {
                    grid: empty_grid(),
                    moves: Seq::empty(),
                    selected: None,
                    turn: Color::White,
                    game_over: false,
                },
                color_player_1: player1_color,
                player1: Seq::empty(),
                player2: Seq::empty(),
                is_started: false,
                is_over: false,
            }),
    {
        Self {
            board: ChessBoard::new(gen_matrix()),
            id: String::new(),
            player1: String::new(),
            player2: String::new(),
            color_player_1: player1_color,
            is_started: false,
            is_over: false,
        }
    }

    /// Whether the side to move may take the piece on `from` to `to`. The
    /// game is left as it was.
    pub fn validify_move(&mut self, from: (u8, u8), to: (u8, u8)) -> (valid: bool)
        requires
            old(self).wf(),
        ensures
            *final(self) == *old(self),
            valid == move_allowed(old(self)@.board, from, to),
            piece_on(old(self)@.board.grid, from) matches Some((_, color)) && color != old(
                self,
            )@.board.turn ==> !valid,
    {
        match self.board.piece_at(from) {
            None => false,
            Some((_, color)) => {
                if color != self.board.turn {
                    return false;
                }
                if to.0 > 7 || to.1 > 7 {
                    return false;
                }
                let moves = self.board.get_moves(from);
                holds_square(&moves, to)
            },
        }
    }

    /// Takes the piece on `from` to `to`: `from` is left empty and `to` holds
    /// the piece, whatever stood there before. Nothing is checked but that
    /// `from` holds a piece and `to` is a square of the board; otherwise the
    /// game is left as it was. The side to move does not change.
    pub fn move_piece(&mut self, from: (u8, u8), to: (u8, u8))
        requires
            old(self).wf(),
        ensures
            final(self).wf(),
            final(self)@ == (GameView {
                board: board_after_move(old(self)@.board, from, to),
                ..old(self)@
            }),
    {
        let piece = self.board.piece_at(from);
        if piece.is_some() && to.0 <= 7 && to.1 <= 7 {
            set_cell(&mut self.board.board, from.0 as usize, from.1 as usize, None);
            set_cell(&mut self.board.board, to.0 as usize, to.1 as usize, piece);
        }
    }

    /// Lays the standard opening position over the board; see
    /// [`populate_board`].
    pub fn load_new(&mut self)
        requires
            old(self).wf(),
        ensures
            final(self).wf(),
            final(self)@ == (GameView {
                board: BoardView {
                    grid: with_opening_layout(old(self)@.board.grid),
                    ..old(self)@.board
                },
                ..old(self)@
            }),
    {
        populate_board(&mut self.board.board);
    }

    /// Handles the request of `player` to take the piece on `from` to `to`.
    /// The move is declined, and the game left as it was, where `player`
    /// holds no seat, a seat of `player` is not to move, the move is not
    /// allowed, or the game is over, in this order. Otherwise the piece goes
    /// over, the turn passes to the other side, and the side now to move is
    /// returned.
    pub fn take_turn(&mut self, player: &String, from: Square, to: Square) -> (outcome: Result<
        Color,
        MoveError,
    >)
        requires
            old(self).wf(),
        ensures
            final(self).wf(),
            match old(self)@.refusal(player@, from, to) {
                Some(error) => outcome == Err::<Color, MoveError>(error) && final(self)@ == old(
                    self,
                )@,
                None => outcome == Ok::<Color, MoveError>(old(self)@.board.turn.spec_opposite())
                    && final(self)@ == old(self)@.after_turn(from, to),
            },
            final(self).is_over == old(self).is_over,
    {
        let first_seat = *player == self.player1;
        let second_seat = *player == self.player2;
        let first_to_move = self.color_player_1 == self.board.turn;
        if !first_seat && !second_seat {
            return Err(MoveError::NotInLobby);
        }
        if (first_seat && !first_to_move) || (second_seat && first_to_move) {
            return Err(MoveError::NotYourTurn);
        }
        if !self.validify_move(from, to) {
            return Err(MoveError::InvalidMove);
        }
        if self.is_over {
            return Err(MoveError::GameOver);
        }
        self.move_piece(from, to);
        let next = self.board.turn.opposite();
        self.board.turn = next;
        Ok(next)
    }
}

} // verus!
