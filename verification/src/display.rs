//! What an interface needs to draw a board: the style class of a square and
//! the image of a piece.

use vstd::prelude::*;
use vstd::string::StringExecFns;
use crate::data::{Color, PieceKind};

verus! {

/// Whether the square at file `i`, rank `j` is a dark one: the two
/// coordinates add up to an even number.
pub open spec fn is_dark(i: u8, j: u8) -> bool {
    (i + j) % 2 == 0
}

/// The style class of a square: `square`, followed by ` black` on a dark
/// square and by ` selected` on the selected one.
pub open spec fn square_class(i: u8, j: u8, selected: bool) -> Seq<char> {
    "square"@ + (if is_dark(i, j) {
        " black"@
    } else {
        Seq::empty()
    }) + (if selected {
        " selected"@
    } else {
        Seq::empty()
    })
}

/// The style class of the square at file `i`, rank `j`.
pub fn activate_selected_color(i: u8, j: u8, selected: bool) -> (class: String)
    ensures
        class@ == square_class(i, j, selected),
{
    let mut class = String::from_str("square");
    if i % 2 == j % 2 {
        class.append(" black");
    }
    if selected {
        class.append(" selected");
    }
    class
}

/// The stem of the image name of a kind of piece.
pub open spec fn kind_stem(kind: PieceKind) -> Seq<char> {
    match kind {
        PieceKind::Pawn => "pawn_"@,
        PieceKind::Knight => "knight_"@,
        PieceKind::Bishop => "bishop_"@,
        PieceKind::Rook => "rook_"@,
        PieceKind::Queen => "queen_"@,
        PieceKind::King => "king_"@,
    }
}

/// The name of a colour in image names.
pub open spec fn color_name(color: Color) -> Seq<char> {
    match color {
        Color::White => "white"@,
        Color::Black => "black"@,
    }
}

/// The name of the image of a piece: the kind, an underscore, the colour and
/// `.png`.
pub open spec fn image_name(kind: PieceKind, color: Color) -> Seq<char> {
    kind_stem(kind) + color_name(color) + ".png"@
}

/// The name of the image that shows a piece of the given kind and colour.
pub fn piece_image(kind: PieceKind, color: Color) -> (name: String)
    ensures
        name@ == image_name(kind, color),
{
    let mut name = String::from_str(
        match kind {
            PieceKind::Pawn => "pawn_",
            PieceKind::Knight => "knight_",
            PieceKind::Bishop => "bishop_",
            PieceKind::Rook => "rook_",
            PieceKind::Queen => "queen_",
            PieceKind::King => "king_",
        },
    );
    name.append(
        match color {
            Color::White => "white",
            Color::Black => "black",
        },
    );
    name.append(".png");
    name
}

} // verus!
