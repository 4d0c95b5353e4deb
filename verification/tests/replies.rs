use chess_lobby::data::{Color, PieceKind};
use chess_lobby::display::{activate_selected_color, piece_image};
use chess_lobby::game::MoveError;
use chess_lobby::replies::{lobby_created, lobby_not_created, lobby_not_found, move_declined};

#[test]
fn confirmation_names_the_player_and_the_identifier() {
    assert_eq!(lobby_created("alice", "abc-123"), "New lobby created for alice! ID: abc-123");
    assert_eq!(lobby_created("", ""), "New lobby created for ! ID: ");
}

#[test]
fn failed_creation_names_the_player() {
    assert_eq!(lobby_not_created("alice"), "No lobby created for alice! Try again.");
}

#[test]
fn not_found_names_the_identifier() {
    assert_eq!(lobby_not_found("abc-123"), "Lobby abc-123 not found!");
}

#[test]
fn each_reason_to_decline_has_its_text() {
    assert_eq!(move_declined(MoveError::NotFound, "one", "alice"), "Lobby one not found!");
    assert_eq!(
        move_declined(MoveError::NotInLobby, "one", "alice"),
        "Player alice not found in lobby one!"
    );
    assert_eq!(move_declined(MoveError::GameOver, "one", "alice"), "The game is over!");
    assert_eq!(move_declined(MoveError::NotYourTurn, "one", "alice"), "It's not your turn!");
    assert_eq!(move_declined(MoveError::InvalidMove, "one", "alice"), "Invalid move!");
}

#[test]
fn square_class_marks_dark_and_selected_squares() {
    assert_eq!(activate_selected_color(0, 0, false), "square black");
    assert_eq!(activate_selected_color(0, 1, false), "square");
    assert_eq!(activate_selected_color(3, 5, true), "square black selected");
    assert_eq!(activate_selected_color(4, 7, true), "square selected");
    assert_eq!(activate_selected_color(255, 255, false), "square black");
    assert_eq!(activate_selected_color(255, 0, false), "square");
}

#[test]
fn piece_image_joins_kind_and_colour() {
    assert_eq!(piece_image(PieceKind::Pawn, Color::White), "pawn_white.png");
    assert_eq!(piece_image(PieceKind::Knight, Color::Black), "knight_black.png");
    assert_eq!(piece_image(PieceKind::Bishop, Color::White), "bishop_white.png");
    assert_eq!(piece_image(PieceKind::Rook, Color::Black), "rook_black.png");
    assert_eq!(piece_image(PieceKind::Queen, Color::White), "queen_white.png");
    assert_eq!(piece_image(PieceKind::King, Color::Black), "king_black.png");
}
