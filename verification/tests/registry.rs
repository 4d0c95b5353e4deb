use chess_lobby::data::{Color, PieceKind};
use chess_lobby::game::{ChessGame, MoveError};
use chess_lobby::registry::{JoinLobby, MoveChessPiece, SessionRegistry};

fn join(id: &str, player: &str) -> JoinLobby {
    JoinLobby { id: id.to_string(), player: player.to_string() }
}

fn request(id: &str, player: &str, from: (u8, u8), to: (u8, u8)) -> MoveChessPiece {
    MoveChessPiece { id: id.to_string(), player: player.to_string(), from, to }
}

fn opening_for(id: &str, player: &str) -> ChessGame {
    let mut game = ChessGame::new(Color::White);
    game.load_new();
    game.id = id.to_string();
    game.player1 = player.to_string();
    game
}

#[test]
fn lobby_from_creation_to_the_first_moves() {
    let mut registry = SessionRegistry::new();
    let id = registry.new_lobby("alice".to_string()).expect("a fresh identifier");
    let other = registry.new_lobby("carol".to_string()).expect("a fresh identifier");
    let created = registry.get_update(&id).expect("the lobby exists");
    assert_eq!(created, opening_for(&id, "alice"));

    let seated = registry.join_lobby(&join(&id, "bob")).expect("the lobby exists");
    assert_eq!(seated.player1, "alice");
    assert_eq!(seated.player2, "bob");
    assert_eq!(seated.color_player_1, Color::White);

    let early = registry.move_piece(&request(&id, "bob", (4, 6), (4, 4)));
    assert_eq!(early, Err(MoveError::NotYourTurn));

    let after = registry.move_piece(&request(&id, "alice", (4, 1), (4, 3))).expect("accepted");
    assert_eq!(after.board.board[4][1], None);
    assert_eq!(after.board.board[4][3], Some((PieceKind::Pawn, Color::White)));
    assert_eq!(after.board.turn, Color::Black);
    assert_eq!(registry.get_update(&id), Some(after.clone()));

    let again = registry.move_piece(&request(&id, "alice", (3, 1), (3, 3)));
    assert_eq!(again, Err(MoveError::NotYourTurn));
    assert_eq!(registry.get_update(&id), Some(after.clone()));

    let snapshot = registry.get_lobbies();
    let missing = registry.move_piece(&request("no-such-lobby", "alice", (3, 1), (3, 3)));
    assert_eq!(missing, Err(MoveError::NotFound));
    assert_eq!(registry.get_lobbies(), snapshot);
    assert_eq!(registry.get_update(&other), Some(opening_for(&other, "carol")));

    let reply = registry.move_piece(&request(&id, "bob", (4, 6), (4, 4))).expect("accepted");
    assert_eq!(reply.board.board[4][6], None);
    assert_eq!(reply.board.board[4][4], Some((PieceKind::Pawn, Color::Black)));
    assert_eq!(reply.board.turn, Color::White);
}

#[test]
fn new_registry_is_empty() {
    let registry = SessionRegistry::new();
    assert_eq!(registry.len(), 0);
    assert_eq!(registry.get_lobbies(), vec![]);
    assert_eq!(registry.get_update(&"anything".to_string()), None);
}

#[test]
fn new_lobby_returns_a_fresh_identifier_each_time() {
    let mut registry = SessionRegistry::new();
    let first = registry.new_lobby("alice".to_string()).expect("a fresh identifier");
    let second = registry.new_lobby("alice".to_string()).expect("a fresh identifier");
    assert_ne!(first, second);
    assert_ne!(first, "alice");
    for id in [&first, &second] {
        let letters: Vec<char> = id.chars().collect();
        assert_eq!(letters.len(), 36);
        for (place, letter) in letters.iter().enumerate() {
            if place == 8 || place == 13 || place == 18 || place == 23 {
                assert_eq!(*letter, '-');
            } else {
                assert!(letter.is_ascii_hexdigit() && !letter.is_ascii_uppercase());
            }
        }
        assert_eq!(letters[14], '4');
        assert!(matches!(letters[19], '8' | '9' | 'a' | 'b'));
    }
    assert_eq!(registry.len(), 2);
    let games = registry.get_lobbies();
    assert_eq!(games[0], opening_for(&first, "alice"));
    assert_eq!(games[1], opening_for(&second, "alice"));
}

#[test]
fn open_lobby_declines_an_identifier_in_use() {
    let mut registry = SessionRegistry::new();
    assert!(registry.open_lobby("one".to_string(), "alice".to_string()));
    assert!(registry.open_lobby("two".to_string(), "bob".to_string()));
    let before = registry.get_lobbies();
    assert!(!registry.open_lobby("one".to_string(), "carol".to_string()));
    assert_eq!(registry.get_lobbies(), before);
    assert_eq!(before.len(), 2);
    assert_eq!(before[0], opening_for("one", "alice"));
    assert_eq!(before[1], opening_for("two", "bob"));
    assert!(registry.open_lobby("".to_string(), "carol".to_string()));
    assert_eq!(registry.len(), 3);
}

#[test]
fn join_lobby_reports_a_lobby_that_does_not_exist() {
    let mut registry = SessionRegistry::new();
    assert!(registry.open_lobby("one".to_string(), "alice".to_string()));
    let before = registry.get_lobbies();
    assert_eq!(registry.join_lobby(&join("two", "bob")), None);
    assert_eq!(registry.get_lobbies(), before);
}

#[test]
fn join_lobby_seats_the_second_player_of_that_lobby_only() {
    let mut registry = SessionRegistry::new();
    assert!(registry.open_lobby("one".to_string(), "alice".to_string()));
    assert!(registry.open_lobby("two".to_string(), "carol".to_string()));
    let seated = registry.join_lobby(&join("two", "bob")).expect("the lobby exists");
    let mut expected = opening_for("two", "carol");
    expected.player2 = "bob".to_string();
    assert_eq!(seated, expected);
    assert_eq!(registry.get_lobbies(), vec![opening_for("one", "alice"), expected.clone()]);
    let reseated = registry.join_lobby(&join("two", "dave")).expect("the lobby exists");
    assert_eq!(reseated.player2, "dave");
    assert_eq!(reseated.player1, "carol");
}

#[test]
fn move_piece_reports_each_reason_to_decline() {
    let mut registry = SessionRegistry::new();
    assert!(registry.open_lobby("one".to_string(), "alice".to_string()));
    registry.join_lobby(&join("one", "bob")).expect("the lobby exists");
    let before = registry.get_lobbies();
    assert_eq!(
        registry.move_piece(&request("two", "alice", (4, 1), (4, 3))),
        Err(MoveError::NotFound)
    );
    assert_eq!(
        registry.move_piece(&request("one", "carol", (4, 1), (4, 3))),
        Err(MoveError::NotInLobby)
    );
    assert_eq!(
        registry.move_piece(&request("one", "bob", (4, 6), (4, 5))),
        Err(MoveError::NotYourTurn)
    );
    assert_eq!(
        registry.move_piece(&request("one", "alice", (4, 1), (4, 4))),
        Err(MoveError::InvalidMove)
    );
    assert_eq!(
        registry.move_piece(&request("one", "alice", (4, 6), (4, 5))),
        Err(MoveError::InvalidMove)
    );
    assert_eq!(registry.get_lobbies(), before);
}

#[test]
fn move_piece_changes_the_named_lobby_only() {
    let mut registry = SessionRegistry::new();
    assert!(registry.open_lobby("one".to_string(), "alice".to_string()));
    assert!(registry.open_lobby("two".to_string(), "alice".to_string()));
    assert!(registry.open_lobby("three".to_string(), "alice".to_string()));
    let after = registry.move_piece(&request("two", "alice", (1, 0), (2, 2))).expect("accepted");
    let mut expected = opening_for("two", "alice");
    expected.board.board[1][0] = None;
    expected.board.board[2][2] = Some((PieceKind::Knight, Color::White));
    expected.board.turn = Color::Black;
    assert_eq!(after, expected);
    assert_eq!(
        registry.get_lobbies(),
        vec![opening_for("one", "alice"), expected, opening_for("three", "alice")]
    );
}

#[test]
fn free_second_seat_answers_to_the_empty_name() {
    let mut registry = SessionRegistry::new();
    assert!(registry.open_lobby("one".to_string(), "alice".to_string()));
    assert_eq!(
        registry.move_piece(&request("one", "", (4, 6), (4, 5))),
        Err(MoveError::NotYourTurn)
    );
}

#[test]
fn new_lobby_succeeds_where_no_identifier_is_a_token() {
    let mut empty = SessionRegistry::new();
    assert!(empty.new_lobby("alice".to_string()).is_some());
    assert_eq!(empty.len(), 1);

    let mut registry = SessionRegistry::new();
    assert!(registry.open_lobby("one".to_string(), "alice".to_string()));
    assert!(registry.open_lobby("".to_string(), "bob".to_string()));
    assert!(registry.open_lobby(
        "0123456789abcdef0123456789abcdef0123".to_string(),
        "carol".to_string()
    ));
    let id = registry.new_lobby("dave".to_string()).expect("no identifier is a token");
    assert_eq!(registry.len(), 4);
    assert_eq!(registry.get_lobbies()[3], opening_for(&id, "dave"));
}
