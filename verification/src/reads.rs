//! The decisions of the reads that return games with their notes.
//!
//! Like the transactions, a read is a machine: the caller runs the query it
//! asks for, hands back the rows, and asks again until it finishes.
use vstd::prelude::*;

use crate::db::{attach_notes, builds, notes_received, DbError, Game, GameWithNotes, Note};

verus! {

/// Where a read stands.
pub enum ReadStage {
    /// Waiting for the live game.
    AwaitGame,
    /// Waiting for the live games at the live location.
    AwaitGames,
    /// Waiting to learn whether the location is live.
    AwaitLocation,
    /// Waiting for the notes of this game.
    AwaitNotesOfGame(Game),
    /// Waiting for the notes of these games.
    AwaitNotesOfGames(Vec<Game>),
    Done,
}

/// A read in progress; `id` names the game or the location.
pub struct ReadTxn {
    pub id: i64,
    pub stage: ReadStage,
}

/// The rows the database returned.
pub enum ReadEvent {
    Game(Game),
    Games(Vec<Game>),
    LocationFound,
    Notes(Vec<Note>),
    Failed(DbError),
}

/// The query the database is to run next.
pub enum ReadAction {
    /// The live game by id.
    FetchGame(i64),
    /// The live games at the live location, by abbreviation and then id.
    FetchGamesAt(i64),
    /// The live location by id; a missing one fails as not found.
    CheckLocation(i64),
    /// The live notes of these games, oldest first.
    FetchNotesOf(Vec<i64>),
    /// Stop with one game.
    FinishGame(Result<GameWithNotes, DbError>),
    /// Stop with the games of a location.
    FinishGames(Result<Vec<GameWithNotes>, DbError>),
}

impl ReadStage {
    /// The stage is waiting for rows of this kind.
    pub open spec fn accepts(self, ev: ReadEvent) -> bool {
        match ev {
            ReadEvent::Failed(_) => !(self is Done),
            ReadEvent::Game(_) => self is AwaitGame,
            ReadEvent::Games(_) => self is AwaitGames,
            ReadEvent::LocationFound => self is AwaitLocation,
            ReadEvent::Notes(_) => self is AwaitNotesOfGame || self is AwaitNotesOfGames,
        }
    }

    /// The read returns a single game.
    pub open spec fn single(self) -> bool {
        self is AwaitGame || self is AwaitNotesOfGame
    }
}

/// The ids of the games, in order.
pub open spec fn game_ids(games: Seq<Game>) -> Seq<i64> {
    games.map_values(|g: Game| g.id)
}

impl ReadTxn {
    /// `r` is the next stage and query after the rows `ev`.
    pub open spec fn steps_to(self, ev: ReadEvent, r: (ReadTxn, ReadAction)) -> bool {
        let (t, a) = r;
        &&& t.id == self.id
        &&& match ev {
            ReadEvent::Failed(e) => t.stage is Done && if self.stage.single() {
                a == ReadAction::FinishGame(Err(e))
            } else {
                a == ReadAction::FinishGames(Err(e))
            },
            ReadEvent::Game(g) => {
                &&& t.stage == ReadStage::AwaitNotesOfGame(g)
                &&& a matches ReadAction::FetchNotesOf(ids) && ids@ == seq![g.id]
            },
            ReadEvent::Games(gs) => if gs.len() == 0 {
                t.stage is AwaitLocation && a == ReadAction::CheckLocation(self.id)
            } else {
                &&& t.stage == ReadStage::AwaitNotesOfGames(gs)
                &&& a matches ReadAction::FetchNotesOf(ids) && ids@ == game_ids(gs@)
            },
            ReadEvent::LocationFound => {
                &&& t.stage is Done
                &&& a matches ReadAction::FinishGames(Ok(v)) && v.len() == 0
            },
            ReadEvent::Notes(ns) => {
                &&& t.stage is Done
                &&& match self.stage {
                    ReadStage::AwaitNotesOfGame(g) => {
                        a matches ReadAction::FinishGame(Ok(gw)) && builds(gw, g, ns@)
                    },
                    ReadStage::AwaitNotesOfGames(gs) => {
                        &&& a matches ReadAction::FinishGames(Ok(v)) && v.len() == gs.len()
                            && forall|i: int|
                            0 <= i < gs.len() ==> builds(#[trigger] v[i], gs[i], notes_received(gs@, ns@, i))
                    },
                    _ => true,
                }
            },
        }
    }

    /// Whether the read is waiting for rows of this kind.
    pub fn accepts(&self, ev: &ReadEvent) -> (b: bool)
        ensures
            b == self.stage.accepts(*ev),
    {
        match ev {
            ReadEvent::Failed(_) => !matches!(self.stage, ReadStage::Done),
            ReadEvent::Game(_) => matches!(self.stage, ReadStage::AwaitGame),
            ReadEvent::Games(_) => matches!(self.stage, ReadStage::AwaitGames),
            ReadEvent::LocationFound => matches!(self.stage, ReadStage::AwaitLocation),
            ReadEvent::Notes(_) => matches!(self.stage, ReadStage::AwaitNotesOfGame(_)) || matches!(
                self.stage,
                ReadStage::AwaitNotesOfGames(_)
            ),
        }
    }

    /// Takes the rows the database returned and says what to run next.
    pub fn advance(self, ev: ReadEvent) -> (r: (ReadTxn, ReadAction))
        requires
            self.stage.accepts(ev),
        ensures
            self.steps_to(ev, r),
    {
        let id = self.id;
        match ev {
            ReadEvent::Failed(e) => {
                let single = matches!(self.stage, ReadStage::AwaitGame) || matches!(
                    self.stage,
                    ReadStage::AwaitNotesOfGame(_)
                );
                if single {
                    (ReadTxn { id, stage: ReadStage::Done }, ReadAction::FinishGame(Err(e)))
                } else {
                    (ReadTxn { id, stage: ReadStage::Done }, ReadAction::FinishGames(Err(e)))
                }
            },
            ReadEvent::Game(g) => {
                let mut ids: Vec<i64> = Vec::new();
                ids.push(g.id);
                (ReadTxn { id, stage: ReadStage::AwaitNotesOfGame(g) }, ReadAction::FetchNotesOf(ids))
            },
            ReadEvent::Games(gs) => if gs.len() == 0 {
                (ReadTxn { id, stage: ReadStage::AwaitLocation }, ReadAction::CheckLocation(id))
            } else {
                let ids = ids_of(&gs);
                (ReadTxn { id, stage: ReadStage::AwaitNotesOfGames(gs) }, ReadAction::FetchNotesOf(ids))
            },
            ReadEvent::LocationFound => {
                let v: Vec<GameWithNotes> = Vec::new();
                (ReadTxn { id, stage: ReadStage::Done }, ReadAction::FinishGames(Ok(v)))
            },
            ReadEvent::Notes(ns) => match self.stage {
                ReadStage::AwaitNotesOfGame(g) => {
                    let gw = GameWithNotes::build(g, ns);
                    (ReadTxn { id, stage: ReadStage::Done }, ReadAction::FinishGame(Ok(gw)))
                },
                ReadStage::AwaitNotesOfGames(gs) => {
                    let v = attach_notes(gs, ns);
                    (ReadTxn { id, stage: ReadStage::Done }, ReadAction::FinishGames(Ok(v)))
                },
                // Not reached: only the two note stages accept notes.
                _ => (ReadTxn { id, stage: ReadStage::Done }, ReadAction::FinishGames(Err(DbError::NotFound))),
            },
        }
    }
}

/// The ids of the games, in order.
pub fn ids_of(games: &Vec<Game>) -> (ids: Vec<i64>)
    ensures
        ids@ == game_ids(games@),
{
    let mut ids: Vec<i64> = Vec::new();
    let mut i: usize = 0;
    while i < games.len()
        invariant
            i <= games.len(),
            ids@ == game_ids(games@.take(i as int)),
        decreases games.len() - i,
    {
        ids.push(games[i].id);
        i = i + 1;
        assert(game_ids(games@.take(i as int)) == game_ids(games@.take(i - 1)).push(games@[i - 1].id));
    }
    assert(games@.take(i as int) == games@);
    ids
}

impl Game {
    /// Reads the live game with its live notes, oldest first.
    pub fn find_by_id(id: i64) -> (r: (ReadTxn, ReadAction))
        ensures
            r.0 == (ReadTxn { id, stage: ReadStage::AwaitGame }),
            r.1 == ReadAction::FetchGame(id),
    {
        (ReadTxn { id, stage: ReadStage::AwaitGame }, ReadAction::FetchGame(id))
    }

    /// Reads the live games at the live location, each with its live notes;
    /// a location without games is checked to exist.
    pub fn find_by_location_id(id: i64) -> (r: (ReadTxn, ReadAction))
        ensures
            r.0 == (ReadTxn { id, stage: ReadStage::AwaitGames }),
            r.1 == ReadAction::FetchGamesAt(id),
    {
        (ReadTxn { id, stage: ReadStage::AwaitGames }, ReadAction::FetchGamesAt(id))
    }
}

} // verus!
