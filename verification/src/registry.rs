//! The registry of the games in progress.

use vstd::prelude::*;
use crate::board::BoardView;
use crate::data::{Color, Square};
use crate::game::{ChessGame, GameView, MoveError};
use crate::grid::{empty_grid, grid_wf, with_opening_layout};
use crate::token::{fresh_token, is_token};

verus! {

/// A request to take the second seat of a game.
#[derive(Debug)]
pub struct JoinLobby {
    pub id: String,
    pub player: String,
}

/// A request to move a piece in a game.
#[derive(Debug)]
pub struct MoveChessPiece {
    pub id: String,
    pub player: String,
    pub from: (u8, u8),
    pub to: (u8, u8),
}

/// The mathematical model of a [`MoveChessPiece`].
pub struct MoveRequest {
    pub id: Seq<char>,
    pub player: Seq<char>,
    pub from: Square,
    pub to: Square,
}

/// Whether one of `sessions` has the identifier `id`.
pub open spec fn has_id(sessions: Seq<GameView>, id: Seq<char>) -> bool {
    exists|i: int| 0 <= i < sessions.len() && (#[trigger] sessions[i]).id == id
}

/// Whether one of `sessions` has an identifier of the form that fresh
/// identifiers have.
pub open spec fn holds_token(sessions: Seq<GameView>) -> bool {
    exists|i: int| 0 <= i < sessions.len() && is_token((#[trigger] sessions[i]).id)
}

/// Whether `sessions` can be the content of a registry: no two of them share
/// an identifier, and each has a board of eight files of eight cells.
pub open spec fn sessions_wf(sessions: Seq<GameView>) -> bool {
    &&& forall|i: int| 0 <= i < sessions.len() ==> grid_wf((#[trigger] sessions[i]).board.grid)
    &&& forall|i: int, j: int|
        0 <= i < j < sessions.len() ==> (#[trigger] sessions[i]).id != (#[trigger] sessions[j]).id
}

/// The game that a new lobby starts with: the standard opening position with
/// White to move, `player` in the first seat playing White, and the second
/// seat free.
pub open spec fn opening_session(id: Seq<char>, player: Seq<char>) -> GameView {
    GameView {
        id,
        board: BoardView {
            grid: with_opening_layout(empty_grid()),
            moves: Seq::empty(),
            selected: None,
            turn: Color::White,
            game_over: false,
        },
        color_player_1: Color::White,
        player1: player,
        player2: Seq::empty(),
        is_started: false,
        is_over: false,
    }
}

/// The game `session` with `player` in its second seat.
pub open spec fn joined(session: GameView, player: Seq<char>) -> GameView {
    GameView { player2: player, ..session }
}

impl View for MoveChessPiece {
    type V = MoveRequest;

    open spec fn view(&self) -> MoveRequest {
        MoveRequest { id: self.id@, player: self.player@, from: self.from, to: self.to }
    }
}

/// Why the registry declines `req`, if it does: no game has the identifier,
/// or the game that has it declines the move.
pub open spec fn move_refusal(sessions: Seq<GameView>, req: MoveRequest) -> Option<MoveError> {
    if !has_id(sessions, req.id) {
        Some(MoveError::NotFound)
    } else {
        session_of(sessions, req.id).refusal(req.player, req.from, req.to)
    }
}

/// The place among `sessions` of the game that has the identifier `id`, where
/// one has it.
pub open spec fn index_of(sessions: Seq<GameView>, id: Seq<char>) -> int {
    choose|i: int| 0 <= i < sessions.len() && (#[trigger] sessions[i]).id == id
}

/// The game among `sessions` that has the identifier `id`, where one has it.
pub open spec fn session_of(sessions: Seq<GameView>, id: Seq<char>) -> GameView {
    sessions[index_of(sessions, id)]
}

/// Among games with distinct identifiers, the game at place `i` is the one
/// that its identifier finds.
pub proof fn lemma_index_of_unique(sessions: Seq<GameView>, i: int)
    requires
        sessions_wf(sessions),
        0 <= i < sessions.len(),
    ensures
        has_id(sessions, sessions[i].id),
        index_of(sessions, sessions[i].id) == i,
{
    let j = index_of(sessions, sessions[i].id);
    assert(0 <= j < sessions.len() && sessions[j].id == sessions[i].id);
}

/// The models of a list of games.
pub open spec fn views_of(games: Seq<ChessGame>) -> Seq<GameView> {
    games.map_values(|game: ChessGame| game@)
}

/// All the games in progress, in the order in which they were created. Every
/// operation sees and leaves a whole registry: it either changes one game as
/// its contract says or changes nothing.
pub struct SessionRegistry {
    lobbies: Vec<ChessGame>,
}

impl View for SessionRegistry {
    type V = Seq<GameView>;

    closed spec fn view(&self) -> Seq<GameView> {
        views_of(self.lobbies@)
    }
}

impl SessionRegistry {
    #[verifier::type_invariant]
    spec fn inv(self) -> bool {
        sessions_wf(self@)
    }

    /// A registry without games.
    pub fn new() -> (registry: Self)
        ensures
            registry@ == Seq::<GameView>::empty(),
    {
        Self { lobbies: Vec::new() }
    }

    /// Takes the games out of the registry, which holds none until they are
    /// put back.
    fn take_games(&mut self) -> (games: Vec<ChessGame>)
        ensures
            views_of(games@) == old(self)@,
            sessions_wf(old(self)@),
    {
        proof {
            use_type_invariant(&*self);
        }
        let mut games: Vec<ChessGame> = Vec::new();
        std::mem::swap(&mut self.lobbies, &mut games);
        games
    }

    /// Makes `games` the games of the registry.
    fn put_games(&mut self, games: Vec<ChessGame>)
        requires
            sessions_wf(views_of(games@)),
        ensures
            final(self)@ == views_of(games@),
    {
        self.lobbies = games;
    }

    /// The place of the game with the identifier `id`, if there is one.
    fn position(&self, id: &String) -> (found: Option<usize>)
        ensures
            match found {
                Some(i) => i < self@.len() && self@[i as int].id == id@,
                None => !has_id(self@, id@),
            },
    {
        let mut i: usize = 0;
        while i < self.lobbies.len()
            invariant
                i <= self.lobbies@.len(),
                self@.len() == self.lobbies@.len(),
                forall|j: int| 0 <= j < i ==> (#[trigger] self@[j]).id != id@,
            decreases self.lobbies@.len() - i,
        {
            if self.lobbies[i].id == *id {
                return Some(i);
            }
            i += 1;
        }
        None
    }

    /// The number of games. The games of a registry always have distinct
    /// identifiers and whole boards.
    pub fn len(&self) -> (count: usize)
        ensures
            count == self@.len(),
            sessions_wf(self@),
    {
        proof {
            use_type_invariant(self);
        }
        self.lobbies.len()
    }

    /// Starts a game under the identifier `id`, unless a game has it already:
    /// the standard opening position, `player` in the first seat playing
    /// White, White to move. The new game comes last.
    pub fn open_lobby(&mut self, id: String, player: String) -> (opened: bool)
        ensures
            opened == !has_id(old(self)@, id@),
            opened ==> final(self)@ == old(self)@.push(opening_session(id@, player@)),
            !opened ==> final(self)@ == old(self)@,
            sessions_wf(final(self)@),
    {
        proof {
            use_type_invariant(&*self);
        }
        if self.position(&id).is_some() {
            return false;
        }
        let mut lobby = ChessGame::new(Color::White);
        lobby.load_new();
        lobby.player1 = player;
        lobby.id = id;
        let ghost before = self@;
        let ghost added = lobby@;
        let mut games = self.take_games();
        games.push(lobby);
        proof {
            assert(views_of(games@) =~= before.push(added));
            assert forall|i: int| 0 <= i < before.len() implies (#[trigger] before[i]).id
                != added.id by {
                assert(has_id(before, before[i].id));
            }
        }
        self.put_games(games);
        true
    }

    /// Starts a game for `player` under a fresh random identifier and returns
    /// the identifier. Only where the identifier drawn is in use already is no
    /// game started and the registry left as it was; so a registry in which no
    /// game has an identifier of that form, an empty one for instance, always
    /// gets its game.
    pub fn new_lobby(&mut self, player: String) -> (id: Option<String>)
        ensures
            match id {
                Some(id) => {
                    &&& !has_id(old(self)@, id@)
                    &&& is_token(id@)
                    &&& final(self)@ == old(self)@.push(opening_session(id@, player@))
                },
                None => holds_token(old(self)@) && final(self)@ == old(self)@,
            },
            sessions_wf(final(self)@),
    {
        proof {
            use_type_invariant(&*self);
        }
        let ghost before = self@;
        let id = fresh_token();
        if self.open_lobby(id.clone(), player) {
            Some(id)
        } else {
            proof {
                let i = index_of(before, id@);
                assert(is_token(before[i].id));
            }
            None
        }
    }

    /// Seats `req.player` in the second seat of the game `req.id` and returns
    /// the game as it then is; `None` where no game has that identifier.
    pub fn join_lobby(&mut self, req: &JoinLobby) -> (seated: Option<ChessGame>)
        ensures
            seated is Some <==> has_id(old(self)@, req.id@),
            match seated {
                Some(game) => {
                    &&& game@ == joined(session_of(old(self)@, req.id@), req.player@)
                    &&& final(self)@ == old(self)@.update(index_of(old(self)@, req.id@), game@)
                },
                None => final(self)@ == old(self)@,
            },
            sessions_wf(final(self)@),
    {
        proof {
            use_type_invariant(&*self);
        }
        match self.position(&req.id) {
            None => None,
            Some(i) => {
                let ghost before = self@;
                proof {
                    lemma_index_of_unique(before, i as int);
                }
                let mut games = self.take_games();
                games[i].player2 = req.player.clone();
                let game = games[i].clone();
                proof {
                    assert(views_of(games@) =~= before.update(i as int, game@));
                }
                self.put_games(games);
                Some(game)
            },
        }
    }

    /// Handles a request to move a piece: finds the game `req.id` and lets it
    /// decide as [`ChessGame::take_turn`] does. Returns the game as it is
    /// after an accepted move; a declined move changes nothing.
    pub fn move_piece(&mut self, req: &MoveChessPiece) -> (outcome: Result<ChessGame, MoveError>)
        ensures
            match outcome {
                Ok(game) => {
                    &&& move_refusal(old(self)@, req@) is None
                    &&& game@ == session_of(old(self)@, req.id@).after_turn(req.from, req.to)
                    &&& final(self)@ == old(self)@.update(index_of(old(self)@, req.id@), game@)
                },
                Err(error) => {
                    &&& move_refusal(old(self)@, req@) == Some(error)
                    &&& final(self)@ == old(self)@
                },
            },
            sessions_wf(final(self)@),
    {
        proof {
            use_type_invariant(&*self);
        }
        match self.position(&req.id) {
            None => Err(MoveError::NotFound),
            Some(i) => {
                let ghost before = self@;
                proof {
                    lemma_index_of_unique(before, i as int);
                }
                let mut games = self.take_games();
                let verdict = games[i].take_turn(&req.player, req.from, req.to);
                let outcome = match verdict {
                    Err(error) => {
                        proof {
                            assert(views_of(games@) =~= before);
                        }
                        Err(error)
                    },
                    Ok(_) => {
                        let game = games[i].clone();
                        proof {
                            assert(views_of(games@) =~= before.update(i as int, game@));
                        }
                        Ok(game)
                    },
                };
                self.put_games(games);
                outcome
            },
        }
    }

    /// A copy of every game, in the order of creation.
    pub fn get_lobbies(&self) -> (games: Vec<ChessGame>)
        ensures
            views_of(games@) == self@,
            sessions_wf(self@),
    {
        proof {
            use_type_invariant(self);
        }
        let mut games: Vec<ChessGame> = Vec::new();
        let mut i: usize = 0;
        while i < self.lobbies.len()
            invariant
                i <= self.lobbies@.len(),
                games@.len() == i,
                forall|j: int| 0 <= j < i ==> (#[trigger] games@[j])@ == self.lobbies@[j]@,
            decreases self.lobbies@.len() - i,
        {
            games.push(self.lobbies[i].clone());
            i += 1;
        }
        games
    }

    /// A copy of the game `id`; `None` where no game has that identifier.
    pub fn get_update(&self, id: &String) -> (found: Option<ChessGame>)
        ensures
            found is Some <==> has_id(self@, id@),
            found matches Some(game) ==> game@ == session_of(self@, id@),
    {
        proof {
            use_type_invariant(self);
        }
        match self.position(id) {
            None => None,
            Some(i) => {
                proof {
                    lemma_index_of_unique(self@, i as int);
                }
                Some(self.lobbies[i].clone())
            },
        }
    }
}

} // verus!
