//! What the HTTP endpoints answer, given what the database gave them.
use chrono::NaiveDateTime;
use vstd::prelude::*;

use crate::db::{DbError, Game, GameWithNotes, Location, Note};

verus! {

/// The status of a successful request that created a resource.
pub const CREATED: u16 = 201;

/// An error answer of the API.
#[derive(Debug, PartialEq)]
pub enum ApiError {
    /// 404, with its message.
    NotFound(String),
    /// 409, with its message.
    Conflict(String),
    /// 500, with its message.
    Internal(String),
}

impl View for ApiError {
    /// The HTTP status and the message.
    type V = (u16, Seq<char>);

    open spec fn view(&self) -> (u16, Seq<char>) {
        match self {
            ApiError::NotFound(m) => (404, m@),
            ApiError::Conflict(m) => (409, m@),
            ApiError::Internal(m) => (500, m@),
        }
    }
}

/// The answer to a failure that the client cannot act on.
pub open spec fn internal_error() -> (u16, Seq<char>) {
    (500u16, "Internal server error"@)
}

impl ApiError {
    /// The HTTP status and the message of the error, sent as
    /// `{"error": message}`.
    pub fn into_response(self) -> (r: (u16, String))
        ensures
            (r.0, r.1@) == self@,
    {
        match self {
            ApiError::NotFound(m) => (404, m),
            ApiError::Conflict(m) => (409, m),
            ApiError::Internal(m) => (500, m),
        }
    }
}

fn internal() -> (r: ApiError)
    ensures
        r@ == internal_error(),
{
    ApiError::Internal("Internal server error".to_owned())
}

/// A missing row is answered 404 with `message`; any other failure 500.
pub fn map_not_found(message: &str, e: DbError) -> (r: ApiError)
    ensures
        r@ == (if e is NotFound { (404u16, message@) } else { internal_error() }),
{
    match e {
        DbError::NotFound => ApiError::NotFound(message.to_owned()),
        _ => internal(),
    }
}

/// A missing row is answered 409 with `message`; any other failure 500.
pub fn map_conflict(message: &str, e: DbError) -> (r: ApiError)
    ensures
        r@ == (if e is NotFound { (409u16, message@) } else { internal_error() }),
{
    match e {
        DbError::NotFound => ApiError::Conflict(message.to_owned()),
        _ => internal(),
    }
}

/// Every failure is answered 500.
pub fn map_internal(e: DbError) -> (r: ApiError)
    ensures
        r@ == internal_error(),
{
    internal()
}

/// A missing row is answered 404 with `not_found_msg`, a disabled game 409,
/// any other failure 500.
pub fn map_db_error(not_found_msg: &str, e: DbError) -> (r: ApiError)
    ensures
        r@ == match e {
            DbError::NotFound => (404u16, not_found_msg@),
            DbError::Disabled => (409u16, "Game is disabled"@),
            DbError::Db(_) => internal_error(),
        },
{
    match e {
        DbError::NotFound => ApiError::NotFound(not_found_msg.to_owned()),
        DbError::Disabled => ApiError::Conflict("Game is disabled".to_owned()),
        DbError::Db(_) => internal(),
    }
}

/// A note as the API shows it.
#[derive(Debug, PartialEq)]
pub struct NoteResponse {
    pub id: i64,
    pub note: String,
    pub created_at: NaiveDateTime,
}

/// A game as the API shows it.
#[derive(Debug, PartialEq)]
pub struct GameResponse {
    pub id: i64,
    pub name: String,
    pub abbreviation: String,
}

/// A game with its notes as the API shows it.
#[derive(Debug, PartialEq)]
pub struct GameWithNotesResponse {
    pub id: i64,
    pub name: String,
    pub abbreviation: String,
    pub disabled_at: Option<NaiveDateTime>,
    pub reserved_at: Option<NaiveDateTime>,
    pub reserved_minutes: i32,
    pub notes: Vec<NoteResponse>,
}

/// A location as the API shows it.
#[derive(Debug, PartialEq)]
pub struct LocationResponse {
    pub id: i64,
    pub name: String,
}

pub open spec fn shows_note(r: NoteResponse, n: Note) -> bool {
    r.id == n.id && r.note == n.note && r.created_at == n.created_at
}

pub open spec fn shows_game(r: GameResponse, g: Game) -> bool {
    r.id == g.id && r.name == g.name && r.abbreviation == g.abbreviation
}

pub open spec fn shows_location(r: LocationResponse, l: Location) -> bool {
    r.id == l.id && r.name == l.name
}

pub open spec fn shows_game_with_notes(r: GameWithNotesResponse, g: GameWithNotes) -> bool {
    &&& r.id == g.id
    &&& r.name == g.name
    &&& r.abbreviation == g.abbreviation
    &&& r.disabled_at == g.disabled_at
    &&& r.reserved_at == g.reserved_at
    &&& r.reserved_minutes == g.reserved_minutes
    &&& r.notes.len() == g.notes.len()
    &&& forall|i: int| 0 <= i < g.notes.len() ==> shows_note(#[trigger] r.notes[i], g.notes[i])
}

impl NoteResponse {
    pub fn from(note: Note) -> (r: NoteResponse)
        ensures
            shows_note(r, note),
    {
        NoteResponse { id: note.id, note: note.note, created_at: note.created_at }
    }
}

impl GameResponse {
    pub fn from(game: Game) -> (r: GameResponse)
        ensures
            shows_game(r, game),
    {
        GameResponse { id: game.id, name: game.name, abbreviation: game.abbreviation }
    }
}

impl LocationResponse {
    pub fn from(location: Location) -> (r: LocationResponse)
        ensures
            shows_location(r, location),
    {
        LocationResponse { id: location.id, name: location.name }
    }
}

impl GameWithNotesResponse {
    pub fn from(game_with_notes: GameWithNotes) -> (r: GameWithNotesResponse)
        ensures
            shows_game_with_notes(r, game_with_notes),
    {
        let ghost g = game_with_notes;
        let GameWithNotes {
            id,
            name,
            abbreviation,
            disabled_at,
            reserved_at,
            reserved_minutes,
            notes,
            ..
        } = game_with_notes;
        let mut notes = notes;
        let mut shown: Vec<NoteResponse> = Vec::new();
        let n = notes.len();
        let mut k: usize = 0;
        while notes.len() > 0
            invariant
                k + notes@.len() == n,
                n == g.notes.len(),
                notes@ == g.notes@.subrange(k as int, n as int),
                shown.len() == k,
                forall|i: int| 0 <= i < k ==> shows_note(#[trigger] shown[i], g.notes[i]),
            decreases notes@.len(),
        {
            let note = notes.remove(0);
            assert(note == g.notes[k as int]);
            shown.push(NoteResponse::from(note));
            k = k + 1;
            assert(notes@ == g.notes@.subrange(k as int, n as int));
        }
        GameWithNotesResponse { id, name, abbreviation, disabled_at, reserved_at, reserved_minutes, notes: shown }
    }
}

fn locations_shown(locations: Vec<Location>) -> (r: Vec<LocationResponse>)
    ensures
        r.len() == locations.len(),
        forall|i: int| 0 <= i < locations.len() ==> shows_location(#[trigger] r[i], locations[i]),
{
    let ghost ls = locations@;
    let mut locations = locations;
    let mut shown: Vec<LocationResponse> = Vec::new();
    let n = locations.len();
    let mut k: usize = 0;
    while locations.len() > 0
        invariant
            k + locations@.len() == n,
            n == ls.len(),
            locations@ == ls.subrange(k as int, n as int),
            shown.len() == k,
            forall|i: int| 0 <= i < k ==> shows_location(#[trigger] shown[i], ls[i]),
        decreases locations@.len(),
    {
        let l = locations.remove(0);
        assert(l == ls[k as int]);
        shown.push(LocationResponse::from(l));
        k = k + 1;
        assert(locations@ == ls.subrange(k as int, n as int));
    }
    shown
}

fn games_shown(games: Vec<GameWithNotes>) -> (r: Vec<GameWithNotesResponse>)
    ensures
        r.len() == games.len(),
        forall|i: int| 0 <= i < games.len() ==> shows_game_with_notes(#[trigger] r[i], games[i]),
{
    let ghost gs = games@;
    let mut games = games;
    let mut shown: Vec<GameWithNotesResponse> = Vec::new();
    let n = games.len();
    let mut k: usize = 0;
    while games.len() > 0
        invariant
            k + games@.len() == n,
            n == gs.len(),
            games@ == gs.subrange(k as int, n as int),
            shown.len() == k,
            forall|i: int| 0 <= i < k ==> shows_game_with_notes(#[trigger] shown[i], gs[i]),
        decreases games@.len(),
    {
        let g = games.remove(0);
        assert(g == gs[k as int]);
        shown.push(GameWithNotesResponse::from(g));
        k = k + 1;
        assert(games@ == gs.subrange(k as int, n as int));
    }
    shown
}

/// `GET /v1/locations`: every location shown; failures are 500.
pub fn get_all_locations(found: Result<Vec<Location>, DbError>) -> (r: Result<Vec<LocationResponse>, ApiError>)
    ensures
        match found {
            Ok(ls) => r matches Ok(v) && v.len() == ls.len() && forall|i: int|
                0 <= i < ls.len() ==> shows_location(#[trigger] v[i], ls[i]),
            Err(e) => r matches Err(a) && a@ == internal_error(),
        },
{
    match found {
        Ok(ls) => Ok(locations_shown(ls)),
        Err(e) => Err(map_internal(e)),
    }
}

/// `GET /v1/locations/{id}`: the location, or 404 "Location not found".
pub fn get_location_by_id(found: Result<Location, DbError>) -> (r: Result<LocationResponse, ApiError>)
    ensures
        match found {
            Ok(l) => r matches Ok(v) && shows_location(v, l),
            Err(e) => r matches Err(a) && a@ == (if e is NotFound {
                (404u16, "Location not found"@)
            } else {
                internal_error()
            }),
        },
{
    match found {
        Ok(l) => Ok(LocationResponse::from(l)),
        Err(e) => Err(map_not_found("Location not found", e)),
    }
}

/// `POST /v1/locations`: 201 with the new location; failures are 500.
pub fn post_add_location(added: Result<Location, DbError>) -> (r: Result<(u16, LocationResponse), ApiError>)
    ensures
        match added {
            Ok(l) => r matches Ok(v) && v.0 == 201 && shows_location(v.1, l),
            Err(e) => r matches Err(a) && a@ == internal_error(),
        },
{
    match added {
        Ok(l) => Ok((CREATED, LocationResponse::from(l))),
        Err(e) => Err(map_internal(e)),
    }
}

/// `DELETE /v1/locations/{id}`: the deleted location, or 404 "Location not
/// found".
pub fn delete_location_by_id(deleted: Result<Location, DbError>) -> (r: Result<LocationResponse, ApiError>)
    ensures
        match deleted {
            Ok(l) => r matches Ok(v) && shows_location(v, l),
            Err(e) => r matches Err(a) && a@ == (if e is NotFound {
                (404u16, "Location not found"@)
            } else {
                internal_error()
            }),
        },
{
    match deleted {
        Ok(l) => Ok(LocationResponse::from(l)),
        Err(e) => Err(map_not_found("Location not found", e)),
    }
}

/// `GET /v1/locations/{id}/games`: the games with their notes, or 404
/// "Location not found".
pub fn get_games_by_location_id(found: Result<Vec<GameWithNotes>, DbError>) -> (r: Result<Vec<GameWithNotesResponse>, ApiError>)
    ensures
        match found {
            Ok(gs) => r matches Ok(v) && v.len() == gs.len() && forall|i: int|
                0 <= i < gs.len() ==> shows_game_with_notes(#[trigger] v[i], gs[i]),
            Err(e) => r matches Err(a) && a@ == (if e is NotFound {
                (404u16, "Location not found"@)
            } else {
                internal_error()
            }),
        },
{
    match found {
        Ok(gs) => Ok(games_shown(gs)),
        Err(e) => Err(map_not_found("Location not found", e)),
    }
}

/// `GET /v1/games/{id}`: the game with its notes, or 404 "Game not found".
pub fn get_game_by_id(found: Result<GameWithNotes, DbError>) -> (r: Result<GameWithNotesResponse, ApiError>)
    ensures
        match found {
            Ok(g) => r matches Ok(v) && shows_game_with_notes(v, g),
            Err(e) => r matches Err(a) && a@ == (if e is NotFound {
                (404u16, "Game not found"@)
            } else {
                internal_error()
            }),
        },
{
    match found {
        Ok(g) => Ok(GameWithNotesResponse::from(g)),
        Err(e) => Err(map_not_found("Game not found", e)),
    }
}

/// `POST /v1/locations/{id}/games`: 201 with the new game, or 404
/// "Location not found".
pub fn post_add_game_at_location(added: Result<Game, DbError>) -> (r: Result<(u16, GameResponse), ApiError>)
    ensures
        match added {
            Ok(g) => r matches Ok(v) && v.0 == 201 && shows_game(v.1, g),
            Err(e) => r matches Err(a) && a@ == (if e is NotFound {
                (404u16, "Location not found"@)
            } else {
                internal_error()
            }),
        },
{
    match added {
        Ok(g) => Ok((CREATED, GameResponse::from(g))),
        Err(e) => Err(map_not_found("Location not found", e)),
    }
}

/// The answer of an endpoint that returns one game, missing rows being
/// answered 404 with `message`.
pub open spec fn game_or_not_found(outcome: Result<Game, DbError>, message: Seq<char>, r: Result<GameResponse, ApiError>) -> bool {
    match outcome {
        Ok(g) => r matches Ok(v) && shows_game(v, g),
        Err(e) => r matches Err(a) && a@ == (if e is NotFound { (404u16, message) } else { internal_error() }),
    }
}

/// The answer of an endpoint that changes the state of one game.
pub open spec fn game_or_db_error(outcome: Result<Game, DbError>, r: Result<GameResponse, ApiError>) -> bool {
    match outcome {
        Ok(g) => r matches Ok(v) && shows_game(v, g),
        Err(e) => r matches Err(a) && a@ == match e {
            DbError::NotFound => (404u16, "Game not found"@),
            DbError::Disabled => (409u16, "Game is disabled"@),
            DbError::Db(_) => internal_error(),
        },
    }
}

fn game_answer(outcome: Result<Game, DbError>) -> (r: Result<GameResponse, ApiError>)
    ensures
        game_or_db_error(outcome, r),
{
    match outcome {
        Ok(g) => Ok(GameResponse::from(g)),
        Err(e) => Err(map_db_error("Game not found", e)),
    }
}

/// `PUT /v1/games/{id}`: the updated game, or 404 "Game not found".
pub fn put_update_game(updated: Result<Game, DbError>) -> (r: Result<GameResponse, ApiError>)
    ensures
        game_or_not_found(updated, "Game not found"@, r),
{
    match updated {
        Ok(g) => Ok(GameResponse::from(g)),
        Err(e) => Err(map_not_found("Game not found", e)),
    }
}

/// The answer to a random reservation: the game, or 409 when none was
/// available.
pub open spec fn post_reserve_random_answers(outcome: Result<Game, DbError>, r: Result<GameResponse, ApiError>) -> bool {
    match outcome {
        Ok(g) => r matches Ok(v) && shows_game(v, g),
        Err(e) => r matches Err(a) && a@ == (if e is NotFound {
            (409u16, "No available games at this location"@)
        } else {
            internal_error()
        }),
    }
}

/// `POST /v1/locations/{id}/games/reservations`: the reserved game, or 409
/// "No available games at this location".
pub fn post_reserve_random_game_at_location(reserved: Result<Game, DbError>) -> (r: Result<GameResponse, ApiError>)
    ensures
        post_reserve_random_answers(reserved, r),
{
    match reserved {
        Ok(g) => Ok(GameResponse::from(g)),
        Err(e) => Err(map_conflict("No available games at this location", e)),
    }
}

/// `DELETE /v1/games/{id}/reservations`: the released game, or 404 "Game
/// not found".
pub fn delete_game_reservation_by_id(released: Result<Game, DbError>) -> (r: Result<GameResponse, ApiError>)
    ensures
        game_or_db_error(released, r),
{
    game_answer(released)
}

/// `POST /v1/games/{id}/disable`: the disabled game, or 404 "Game not
/// found".
pub fn post_disable_game_by_id(disabled: Result<Game, DbError>) -> (r: Result<GameResponse, ApiError>)
    ensures
        game_or_db_error(disabled, r),
{
    game_answer(disabled)
}

/// `POST /v1/games/{id}/enable`: the enabled game, or 404 "Game not found".
pub fn post_enable_game_by_id(enabled: Result<Game, DbError>) -> (r: Result<GameResponse, ApiError>)
    ensures
        game_or_db_error(enabled, r),
{
    game_answer(enabled)
}

/// `POST /v1/games/{id}/reservations`: the reserved game, 404 "Game not
/// found", or 409 "Game is disabled".
pub fn post_reserve_game_by_id(reserved: Result<Game, DbError>) -> (r: Result<GameResponse, ApiError>)
    ensures
        game_or_db_error(reserved, r),
{
    game_answer(reserved)
}

/// `DELETE /v1/games/{id}`: the deleted game, or 404 "Game not found".
pub fn delete_game_by_id(deleted: Result<Game, DbError>) -> (r: Result<GameResponse, ApiError>)
    ensures
        game_or_not_found(deleted, "Game not found"@, r),
{
    match deleted {
        Ok(g) => Ok(GameResponse::from(g)),
        Err(e) => Err(map_not_found("Game not found", e)),
    }
}

/// `POST /v1/games/{id}/notes`: 201 with the new note, or 404 "Game not
/// found".
pub fn post_add_note_for_game(added: Result<Note, DbError>) -> (r: Result<(u16, NoteResponse), ApiError>)
    ensures
        match added {
            Ok(n) => r matches Ok(v) && v.0 == 201 && shows_note(v.1, n),
            Err(e) => r matches Err(a) && a@ == (if e is NotFound {
                (404u16, "Game not found"@)
            } else {
                internal_error()
            }),
        },
{
    match added {
        Ok(n) => Ok((CREATED, NoteResponse::from(n))),
        Err(e) => Err(map_not_found("Game not found", e)),
    }
}

/// `DELETE /v1/games/{id}/notes/{note_id}`: the deleted note, or 404 "Note
/// not found".
pub fn delete_note_for_game_by_id(deleted: Result<Note, DbError>) -> (r: Result<NoteResponse, ApiError>)
    ensures
        match deleted {
            Ok(n) => r matches Ok(v) && shows_note(v, n),
            Err(e) => r matches Err(a) && a@ == (if e is NotFound {
                (404u16, "Note not found"@)
            } else {
                internal_error()
            }),
        },
{
    match deleted {
        Ok(n) => Ok(NoteResponse::from(n)),
        Err(e) => Err(map_not_found("Note not found", e)),
    }
}

/// `GET /v1/games/{id}/reservations`: the statistics as they are, or 404
/// "Game not found".
pub fn get_game_reservation_stats<T>(found: Result<T, DbError>) -> (r: Result<T, ApiError>)
    ensures
        match found {
            Ok(s) => r == Ok::<T, ApiError>(s),
            Err(e) => r matches Err(a) && a@ == (if e is NotFound {
                (404u16, "Game not found"@)
            } else {
                internal_error()
            }),
        },
{
    match found {
        Ok(s) => Ok(s),
        Err(e) => Err(map_not_found("Game not found", e)),
    }
}

} // verus!
