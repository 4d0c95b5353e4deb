//! The plain-text replies that go with the outcomes of the registry.

use vstd::prelude::*;
use vstd::string::StringExecFns;
use crate::game::MoveError;

verus! {

/// The text that confirms a new lobby to its creator.
pub open spec fn created_text(player: Seq<char>, id: Seq<char>) -> Seq<char> {
    "New lobby created for "@ + player + "! ID: "@ + id
}

/// The text that reports to `player` that no lobby was created.
pub open spec fn not_created_text(player: Seq<char>) -> Seq<char> {
    "No lobby created for "@ + player + "! Try again."@
}

/// The text that reports that no lobby has the identifier `id`.
pub open spec fn not_found_text(id: Seq<char>) -> Seq<char> {
    "Lobby "@ + id + " not found!"@
}

/// The text that reports why the request of `player` to move in the lobby
/// `id` was declined.
pub open spec fn declined_text(error: MoveError, id: Seq<char>, player: Seq<char>) -> Seq<char> {
    match error {
        MoveError::NotFound => not_found_text(id),
        MoveError::NotInLobby => "Player "@ + player + " not found in lobby "@ + id + "!"@,
        MoveError::NotYourTurn => "It's not your turn!"@,
        MoveError::InvalidMove => "Invalid move!"@,
        MoveError::GameOver => "The game is over!"@,
    }
}

/// Confirms the lobby `id` to `player`, who created it.
pub fn lobby_created(player: &str, id: &str) -> (text: String)
    ensures
        text@ == created_text(player@, id@),
{
    let mut text = String::from_str("New lobby created for ");
    text.append(player);
    text.append("! ID: ");
    text.append(id);
    text
}

/// Reports to `player` that no lobby was created, the identifier drawn for it
/// being in use.
pub fn lobby_not_created(player: &str) -> (text: String)
    ensures
        text@ == not_created_text(player@),
{
    let mut text = String::from_str("No lobby created for ");
    text.append(player);
    text.append("! Try again.");
    text
}

/// Reports that no lobby has the identifier `id`.
pub fn lobby_not_found(id: &str) -> (text: String)
    ensures
        text@ == not_found_text(id@),
{
    let mut text = String::from_str("Lobby ");
    text.append(id);
    text.append(" not found!");
    text
}

/// Reports why the request of `player` to move in the lobby `id` was
/// declined.
pub fn move_declined(error: MoveError, id: &str, player: &str) -> (text: String)
    ensures
        text@ == declined_text(error, id@, player@),
{
    match error {
        MoveError::NotFound => lobby_not_found(id),
        MoveError::NotInLobby => {
            let mut text = String::from_str("Player ");
            text.append(player);
            text.append(" not found in lobby ");
            text.append(id);
            text.append("!");
            text
        },
        MoveError::NotYourTurn => String::from_str("It's not your turn!"),
        MoveError::InvalidMove => String::from_str("Invalid move!"),
        MoveError::GameOver => String::from_str("The game is over!"),
    }
}

} // verus!
