//! The board model: squares, pieces, colours and the 8×8 grid.

use vstd::prelude::*;

verus! {

/// A board coordinate `(file, rank)`; a square of the board has both in `0..=7`.
pub type Square = (u8, u8);

/// An origin square and a destination square.
pub type Move = (Square, Square);

/// The grid of cells, indexed by file and then by rank.
pub type Board = Vec<Vec<Option<(PieceKind, Color)>>>;

/// The side a piece or a player belongs to.
#[derive(Clone, Copy, Debug, PartialEq, Eq, Structural)]
pub enum Color {
    White,
    Black,
}

/// The six kinds of chess piece.
#[derive(Clone, Copy, Debug, PartialEq, Eq, Structural)]
pub enum PieceKind {
    Pawn,
    Knight,
    Bishop,
    Rook,
    Queen,
    King,
}

impl Color {
    /// The other colour.
    pub open spec fn spec_opposite(self) -> Color {
        match self {
            Color::White => Color::Black,
            Color::Black => Color::White,
        }
    }

    /// The other colour.
    #[verifier::when_used_as_spec(spec_opposite)]
    pub fn opposite(self) -> (other: Color)
        ensures
            other == self.spec_opposite(),
    {
        match self {
            Color::White => Color::Black,
            Color::Black => Color::White,
        }
    }
}

impl Default for Color {
    fn default() -> (color: Color)
        ensures
            color == Color::White,
    {
        Color::White
    }
}

/// A piece and the square it stands on, as an interface shows it.
#[derive(Clone, Copy, Debug, PartialEq, Eq)]
pub struct ChessPiece {
    pub piece: PieceKind,
    pub square: Square,
}

/// A square as an interface shows it: what stands on it, whether it is the
/// selected one, and whether the selected piece may go there.
#[derive(Clone, Copy, Debug, PartialEq, Eq)]
pub struct ChessSquare {
    pub square: Square,
    pub piece: Option<ChessPiece>,
    pub selected: bool,
    pub legal: bool,
}

impl Default for ChessSquare {
    fn default() -> (shown: ChessSquare)
        ensures
            shown == (ChessSquare { square: (0, 0), piece: None, selected: false, legal: false }),
    {
        ChessSquare { square: (0, 0), piece: None, selected: false, legal: false }
    }
}

} // verus!
