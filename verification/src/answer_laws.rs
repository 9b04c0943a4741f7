//! What the assembled results and the answers carry, field by field.
use vstd::prelude::*;

use crate::api::{
    game_or_db_error, game_or_not_found, internal_error, post_reserve_random_answers, shows_game,
    shows_game_with_notes, shows_location, shows_note, ApiError, GameResponse, GameWithNotesResponse,
    LocationResponse, NoteResponse,
};
use crate::db::{builds, DbError, Game, GameWithNotes, Location, Note};

verus! {

/// A game joined with its notes keeps every column of the game as it was
/// read: id, location, name, abbreviation, when it was disabled, reserved,
/// deleted and created, and its reserved minutes; its notes are exactly
/// the notes it was given.
pub proof fn joined_game_keeps_its_columns(r: GameWithNotes, game: Game, notes: Seq<Note>)
    requires
        builds(r, game, notes),
    ensures
        r.id == game.id,
        r.location_id == game.location_id,
        r.name@ == game.name@,
        r.abbreviation@ == game.abbreviation@,
        r.disabled_at == game.disabled_at,
        r.reserved_at == game.reserved_at,
        r.deleted_at == game.deleted_at,
        r.created_at == game.created_at,
        r.reserved_minutes == game.reserved_minutes,
        r.notes@.len() == notes.len(),
        forall|i: int| 0 <= i < notes.len() ==> r.notes@[i] == notes[i],
{
}

/// The answers show what they are made from: a note its id, text and
/// creation time; a game its id, name and abbreviation; a location its id
/// and name; a game with notes its id, name, abbreviation, when it was
/// disabled and reserved, its reserved minutes, and each of its notes in
/// order.
pub proof fn answers_show_their_rows(
    rn: NoteResponse,
    n: Note,
    rg: GameResponse,
    g: Game,
    rl: LocationResponse,
    l: Location,
    rw: GameWithNotesResponse,
    w: GameWithNotes,
)
    ensures
        shows_note(rn, n) ==> rn.id == n.id && rn.note@ == n.note@ && rn.created_at == n.created_at,
        shows_game(rg, g) ==> rg.id == g.id && rg.name@ == g.name@ && rg.abbreviation@ == g.abbreviation@,
        shows_location(rl, l) ==> rl.id == l.id && rl.name@ == l.name@,
        shows_game_with_notes(rw, w) ==> {
            &&& rw.id == w.id
            &&& rw.name@ == w.name@
            &&& rw.abbreviation@ == w.abbreviation@
            &&& rw.disabled_at == w.disabled_at
            &&& rw.reserved_at == w.reserved_at
            &&& rw.reserved_minutes == w.reserved_minutes
            &&& rw.notes.len() == w.notes.len()
            &&& forall|i: int|
                0 <= i < w.notes.len() ==> rw.notes[i].id == w.notes[i].id && rw.notes[i].note@
                    == w.notes[i].note@ && rw.notes[i].created_at == w.notes[i].created_at
        },
{
}

/// Every endpoint that answers with one game, after a transaction that
/// succeeded, shows that game's own id, name and abbreviation; failures are
/// answered by their kind.
pub proof fn game_answers_show_the_game(g: Game, e: DbError, message: Seq<char>, r: Result<GameResponse, ApiError>)
    ensures
        game_or_db_error(Ok(g), r) ==> (r matches Ok(v) && v.id == g.id && v.name@ == g.name@ && v.abbreviation@
            == g.abbreviation@),
        game_or_not_found(Ok(g), message, r) ==> (r matches Ok(v) && v.id == g.id && v.name@ == g.name@
            && v.abbreviation@ == g.abbreviation@),
        post_reserve_random_answers(Ok(g), r) ==> (r matches Ok(v) && v.id == g.id && v.name@ == g.name@
            && v.abbreviation@ == g.abbreviation@),
        game_or_db_error(Err(e), r) ==> (r matches Err(a) && a@ == match e {
            DbError::NotFound => (404u16, "Game not found"@),
            DbError::Disabled => (409u16, "Game is disabled"@),
            DbError::Db(_) => (500u16, "Internal server error"@),
        }),
        game_or_not_found(Err(e), message, r) ==> (r matches Err(a) && a@ == if e is NotFound {
            (404u16, message)
        } else {
            (500u16, "Internal server error"@)
        }),
        post_reserve_random_answers(Err(e), r) ==> (r matches Err(a) && a@ == if e is NotFound {
            (409u16, "No available games at this location"@)
        } else {
            (500u16, "Internal server error"@)
        }),
{
    assert(internal_error() == (500u16, "Internal server error"@));
}

/// An error is sent with the status of its kind: 404 for what was not
/// found, 409 for a conflict, 500 for an internal failure, with its message
/// as it is.
pub proof fn errors_carry_their_status(m: String)
    ensures
        ApiError::NotFound(m)@ == (404u16, m@),
        ApiError::Conflict(m)@ == (409u16, m@),
        ApiError::Internal(m)@ == (500u16, m@),
{
}

} // verus!
