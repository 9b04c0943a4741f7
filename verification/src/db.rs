//! The rows of the raffler database and the computations that shape them.
use std::collections::HashMap;

use chrono::NaiveDateTime;
use vstd::prelude::*;

use crate::outside::{driver_error_kind, sql_error_kind, SqlErrorKind};

verus! {

/// Why a database operation did not produce its row.
#[derive(Debug)]
pub enum DbError {
    /// The row does not exist or has been soft-deleted.
    NotFound,
    /// The game is disabled and cannot be reserved.
    Disabled,
    /// Any other failure reported by the driver.
    Db(sqlx::Error),
}

impl DbError {
    /// The error for a driver failure whose kind is known.
    pub fn from_kind(kind: SqlErrorKind, e: sqlx::Error) -> (r: DbError)
        ensures
            kind is RowNotFound ==> r is NotFound,
            kind is Other ==> r == DbError::Db(e),
    {
        match kind {
            SqlErrorKind::RowNotFound => DbError::NotFound,
            SqlErrorKind::Other => DbError::Db(e),
        }
    }

    /// The error for a driver failure: a query that found no row is
    /// `NotFound`, anything else is carried along as `Db`.
    pub fn from(e: sqlx::Error) -> (r: DbError)
        ensures
            driver_error_kind(e) is RowNotFound ==> r is NotFound,
            driver_error_kind(e) is Other ==> r == DbError::Db(e),
    {
        let kind = sql_error_kind(&e);
        DbError::from_kind(kind, e)
    }
}

/// A location where games stand.
#[derive(Debug, PartialEq)]
pub struct Location {
    pub id: i64,
    pub name: String,
    pub deleted_at: Option<NaiveDateTime>,
    pub created_at: NaiveDateTime,
}

/// A game as stored, with the minutes it has been reserved for.
#[derive(Debug, PartialEq)]
pub struct Game {
    pub id: i64,
    pub location_id: i64,
    pub name: String,
    pub abbreviation: String,
    pub disabled_at: Option<NaiveDateTime>,
    pub reserved_at: Option<NaiveDateTime>,
    pub deleted_at: Option<NaiveDateTime>,
    pub created_at: NaiveDateTime,
    pub reserved_minutes: i32,
}

/// A note written about a game.
#[derive(Debug, PartialEq)]
pub struct Note {
    pub id: i64,
    pub game_id: i64,
    pub player_id: Option<i64>,
    pub note: String,
    pub deleted_at: Option<NaiveDateTime>,
    pub created_at: NaiveDateTime,
}

/// A game together with its notes.
#[derive(Debug, PartialEq)]
pub struct GameWithNotes {
    pub id: i64,
    pub location_id: i64,
    pub name: String,
    pub abbreviation: String,
    pub disabled_at: Option<NaiveDateTime>,
    pub reserved_at: Option<NaiveDateTime>,
    pub deleted_at: Option<NaiveDateTime>,
    pub created_at: NaiveDateTime,
    pub notes: Vec<Note>,
    pub reserved_minutes: i32,
}

/// `r` carries every field of `game` and exactly the notes `notes`.
pub open spec fn builds(r: GameWithNotes, game: Game, notes: Seq<Note>) -> bool {
    &&& r.id == game.id
    &&& r.location_id == game.location_id
    &&& r.name == game.name
    &&& r.abbreviation == game.abbreviation
    &&& r.disabled_at == game.disabled_at
    &&& r.reserved_at == game.reserved_at
    &&& r.deleted_at == game.deleted_at
    &&& r.created_at == game.created_at
    &&& r.reserved_minutes == game.reserved_minutes
    &&& r.notes@ == notes
}

impl GameWithNotes {
    /// Joins a game with its notes.
    pub fn build(game: Game, notes: Vec<Note>) -> (r: GameWithNotes)
        ensures
            builds(r, game, notes@),
    {
        GameWithNotes {
            id: game.id,
            location_id: game.location_id,
            name: game.name,
            abbreviation: game.abbreviation,
            disabled_at: game.disabled_at,
            reserved_at: game.reserved_at,
            deleted_at: game.deleted_at,
            created_at: game.created_at,
            notes,
            reserved_minutes: game.reserved_minutes,
        }
    }
}

/// The notes of `ns` that belong to the game `id`, in their order.
pub open spec fn notes_for(ns: Seq<Note>, id: i64) -> Seq<Note>
    decreases ns.len(),
{
    if ns.len() == 0 {
        Seq::empty()
    } else {
        let rest = notes_for(ns.drop_last(), id);
        if ns.last().game_id == id {
            rest.push(ns.last())
        } else {
            rest
        }
    }
}

/// Some game before position `i` has the id `id`.
pub open spec fn claimed(games: Seq<Game>, i: int, id: i64) -> bool {
    exists|j: int| 0 <= j < i && #[trigger] games[j].id == id
}

/// The notes that the game at position `i` receives when notes are handed
/// out in game order: all of its notes, unless an earlier game with the
/// same id has taken them already.
pub open spec fn notes_received(games: Seq<Game>, notes: Seq<Note>, i: int) -> Seq<Note> {
    if claimed(games, i, games[i].id) {
        Seq::empty()
    } else {
        notes_for(notes, games[i].id)
    }
}

/// Groups the notes by their game, each group in the order of `notes`, as
/// the listing of a location does before handing them out.
fn group_notes(notes: Vec<Note>) -> (m: HashMap<i64, Vec<Note>>)
    ensures
        forall|g: i64|
            #[trigger] notes_for(notes@, g).len() > 0 ==> m@.contains_key(g) && m@[g]@ == notes_for(notes@, g),
        forall|g: i64| #[trigger] m@.contains_key(g) ==> m@[g]@ == notes_for(notes@, g),
{
    broadcast use vstd::std_specs::hash::group_hash_axioms;

    let ghost orig = notes@;
    let mut notes = notes;
    let mut m: HashMap<i64, Vec<Note>> = HashMap::new();
    let mut k: usize = 0;
    let n = notes.len();
    while notes.len() > 0
        invariant
            k + notes@.len() == n,
            n == orig.len(),
            notes@ == orig.subrange(k as int, n as int),
            forall|g: i64|
                #[trigger] notes_for(orig.take(k as int), g).len() > 0 ==> m@.contains_key(g) && m@[g]@
                    == notes_for(orig.take(k as int), g),
            forall|g: i64| #[trigger] m@.contains_key(g) ==> m@[g]@ == notes_for(orig.take(k as int), g),
        decreases notes@.len(),
    {
        let note = notes.remove(0);
        let gid = note.game_id;
        assert(orig.take(k + 1).drop_last() == orig.take(k as int));
        assert(orig.take(k + 1).last() == orig[k as int]);
        let ghost before = notes_for(orig.take(k as int), gid);
        let mut list = match m.remove(&gid) {
            Some(l) => l,
            None => Vec::new(),
        };
        assert(list@ == before) by {
            if before.len() == 0 {
                assert(before =~= Seq::<Note>::empty());
            }
        }
        list.push(note);
        assert(list@ == notes_for(orig.take(k + 1), gid));
        m.insert(gid, list);
        k = k + 1;
        assert(notes@ == orig.subrange(k as int, n as int));
        assert forall|g: i64| #[trigger] m@.contains_key(g) implies m@[g]@ == notes_for(orig.take(k as int), g) by {
            if g != gid {
                assert(notes_for(orig.take(k as int), g) == notes_for(orig.take(k - 1), g));
            }
        }
        assert forall|g: i64| #[trigger] notes_for(orig.take(k as int), g).len() > 0 implies m@.contains_key(g) by {
            if g != gid {
                assert(notes_for(orig.take(k as int), g) == notes_for(orig.take(k - 1), g));
            }
        }
    }
    assert(orig.take(n as int) == orig);
    m
}

/// Hands every game its notes, as the listing of a location does: the
/// notes arrive in one list, and each game receives the ones written about
/// it, in the order of that list.
pub fn attach_notes(games: Vec<Game>, notes: Vec<Note>) -> (r: Vec<GameWithNotes>)
    ensures
        r.len() == games.len(),
        forall|i: int|
            0 <= i < games.len() ==> builds(#[trigger] r[i], games[i], notes_received(games@, notes@, i)),
{
    broadcast use vstd::std_specs::hash::group_hash_axioms;

    let ghost gs = games@;
    let ghost ns = notes@;
    let mut games = games;
    let mut by_game = group_notes(notes);
    let mut out: Vec<GameWithNotes> = Vec::new();
    let mut k: usize = 0;
    let n = games.len();
    while games.len() > 0
        invariant
            k + games@.len() == n,
            n == gs.len(),
            games@ == gs.subrange(k as int, n as int),
            forall|g: i64|
                #[trigger] by_game@.contains_key(g) ==> by_game@[g]@ == notes_for(ns, g) && !claimed(gs, k as int, g),
            forall|g: i64|
                #[trigger] notes_for(ns, g).len() > 0 && !claimed(gs, k as int, g) ==> by_game@.contains_key(g),
            out.len() == k,
            forall|i: int| 0 <= i < k ==> builds(#[trigger] out[i], gs[i], notes_received(gs, ns, i)),
        decreases games@.len(),
    {
        let game = games.remove(0);
        let id = game.id;
        assert(gs[k as int] == game);
        let mine = match by_game.remove(&id) {
            Some(l) => l,
            None => Vec::new(),
        };
        assert(mine@ == notes_received(gs, ns, k as int)) by {
            if !claimed(gs, k as int, id) && notes_for(ns, id).len() == 0 {
                assert(notes_for(ns, id) =~= Seq::<Note>::empty());
            }
        }
        let entry = GameWithNotes::build(game, mine);
        out.push(entry);
        k = k + 1;
        assert(games@ == gs.subrange(k as int, n as int));
        assert forall|g: i64| #[trigger] by_game@.contains_key(g) implies !claimed(gs, k as int, g) by {
            if claimed(gs, k as int, g) {
                let j = choose|j: int| 0 <= j < k && #[trigger] gs[j].id == g;
                if j < k - 1 {
                    assert(claimed(gs, k - 1, g));
                }
            }
        }
        assert forall|g: i64|
            #[trigger] notes_for(ns, g).len() > 0 && !claimed(gs, k as int, g) implies by_game@.contains_key(g) by {
            assert(g != id) by {
                assert(gs[k - 1].id == id);
            }
            assert(!claimed(gs, k - 1, g));
        }
    }
    out
}

} // verus!
