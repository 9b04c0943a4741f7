//! The decisions of the transactions that change games and locations.
//!
//! Each transaction is a machine: the caller runs the action it asks for
//! against the database, hands back what the database answered, and asks
//! again, until the machine finishes with the transaction's result. A
//! `Finish` that was not preceded by `Commit` means the transaction is to be
//! rolled back.
use chrono::NaiveDateTime;
use vstd::prelude::*;

use crate::db::{DbError, Game, Location};

verus! {

/// The transactions that lock or change one game row.
#[derive(Debug, Clone, Copy, PartialEq, Eq, Structural)]
pub enum GameOp {
    Disable,
    Enable,
    Reserve,
    Release,
    ReserveRandom,
    Delete,
}

/// Where a game transaction stands.
pub enum TxnStage {
    /// Waiting for the transaction to begin.
    Beginning,
    /// Waiting for the row that the opening statement locks or changes.
    AwaitRow,
    /// Waiting for the reservation record to be written.
    Recording,
    /// Waiting for the row that the update returns.
    Updating,
    /// Waiting for the notes of the game to be soft-deleted.
    Cascading(Game),
    /// Waiting for the commit; the game is the result.
    Committing(Game),
    /// Finished.
    Done,
}

/// A game transaction in progress.
pub struct GameTxn {
    pub op: GameOp,
    /// The game, or for `ReserveRandom` the location.
    pub id: i64,
    pub stage: TxnStage,
}

/// What the database answered to the last action.
pub enum TxnEvent {
    Begun,
    Row(Game),
    Executed,
    Committed,
    Failed(DbError),
}

/// The statement the database is to run next.
pub enum TxnAction {
    /// Begin a transaction.
    Begin,
    /// Select the live game by id, locking it.
    LockGame(i64),
    /// Select one live, enabled, unreserved game at the location, at random, locking it.
    LockRandomAt(i64),
    /// Soft-delete the live game by id, returning it.
    SoftDeleteGame(i64),
    /// Record a finished reservation of the game, released now.
    RecordReservation { game_id: i64, reserved_at: NaiveDateTime },
    /// Disable the game now and drop its reservation, returning it.
    SetDisabled(i64),
    /// Enable the game, returning it.
    ClearDisabled(i64),
    /// Reserve the game now, returning it.
    SetReserved(i64),
    /// Drop the reservation of the game, returning it.
    ClearReserved(i64),
    /// Soft-delete the live notes of the game.
    SoftDeleteNotesOf(i64),
    /// Commit the transaction.
    Commit,
    /// Stop, with this result.
    Finish(Result<Game, DbError>),
}

impl TxnStage {
    /// The stage is waiting for an answer of this kind.
    pub open spec fn accepts(self, ev: TxnEvent) -> bool {
        match ev {
            TxnEvent::Failed(_) => !(self is Done),
            TxnEvent::Begun => self is Beginning,
            TxnEvent::Row(_) => self is AwaitRow || self is Updating,
            TxnEvent::Executed => self is Recording || self is Cascading,
            TxnEvent::Committed => self is Committing,
        }
    }
}

/// The statement that opens the transaction once it has begun.
pub open spec fn opening(op: GameOp, id: i64) -> TxnAction {
    match op {
        GameOp::ReserveRandom => TxnAction::LockRandomAt(id),
        GameOp::Delete => TxnAction::SoftDeleteGame(id),
        _ => TxnAction::LockGame(id),
    }
}

/// What the transaction does with the row it opened with.
pub open spec fn on_row(op: GameOp, id: i64, g: Game) -> (TxnStage, TxnAction) {
    match op {
        GameOp::Disable => if g.disabled_at is Some {
            (TxnStage::Committing(g), TxnAction::Commit)
        } else if g.reserved_at is Some {
            (
                TxnStage::Recording,
                TxnAction::RecordReservation { game_id: id, reserved_at: g.reserved_at->0 },
            )
        } else {
            (TxnStage::Updating, TxnAction::SetDisabled(id))
        },
        GameOp::Enable => if g.disabled_at is None {
            (TxnStage::Committing(g), TxnAction::Commit)
        } else {
            (TxnStage::Updating, TxnAction::ClearDisabled(id))
        },
        GameOp::Reserve => if g.disabled_at is Some {
            (TxnStage::Done, TxnAction::Finish(Err(DbError::Disabled)))
        } else if g.reserved_at is Some {
            (TxnStage::Committing(g), TxnAction::Commit)
        } else {
            (TxnStage::Updating, TxnAction::SetReserved(id))
        },
        GameOp::Release => if g.reserved_at is None {
            (TxnStage::Committing(g), TxnAction::Commit)
        } else {
            (
                TxnStage::Recording,
                TxnAction::RecordReservation { game_id: id, reserved_at: g.reserved_at->0 },
            )
        },
        GameOp::ReserveRandom => (TxnStage::Updating, TxnAction::SetReserved(g.id)),
        GameOp::Delete => (TxnStage::Cascading(g), TxnAction::SoftDeleteNotesOf(id)),
    }
}

/// The update that follows the reservation record.
pub open spec fn after_record(op: GameOp, id: i64) -> TxnAction {
    match op {
        GameOp::Disable => TxnAction::SetDisabled(id),
        _ => TxnAction::ClearReserved(id),
    }
}

impl GameTxn {
    /// The transaction `op` on `id`, about to begin.
    pub open spec fn started(op: GameOp, id: i64) -> GameTxn {
        GameTxn { op, id, stage: TxnStage::Beginning }
    }

    /// The next stage and action, given the database's answer.
    pub open spec fn next(self, ev: TxnEvent) -> (GameTxn, TxnAction) {
        let op = self.op;
        let id = self.id;
        let (stage, action) = match ev {
            TxnEvent::Failed(e) => (TxnStage::Done, TxnAction::Finish(Err(e))),
            TxnEvent::Begun => (TxnStage::AwaitRow, opening(op, id)),
            TxnEvent::Row(g) => if self.stage is AwaitRow {
                on_row(op, id, g)
            } else {
                (TxnStage::Committing(g), TxnAction::Commit)
            },
            TxnEvent::Executed => match self.stage {
                TxnStage::Cascading(g) => (TxnStage::Committing(g), TxnAction::Commit),
                _ => (TxnStage::Updating, after_record(op, id)),
            },
            TxnEvent::Committed => match self.stage {
                TxnStage::Committing(g) => (TxnStage::Done, TxnAction::Finish(Ok(g))),
                // Not reached: only `Committing` accepts `Committed`.
                _ => (TxnStage::Done, TxnAction::Commit),
            },
        };
        (GameTxn { op, id, stage }, action)
    }

    fn start(op: GameOp, id: i64) -> (r: (GameTxn, TxnAction))
        ensures
            r.0 == GameTxn::started(op, id),
            r.1 is Begin,
    {
        (GameTxn { op, id, stage: TxnStage::Beginning }, TxnAction::Begin)
    }

    /// Whether the transaction is waiting for an answer of this kind.
    pub fn accepts(&self, ev: &TxnEvent) -> (b: bool)
        ensures
            b == self.stage.accepts(*ev),
    {
        match ev {
            TxnEvent::Failed(_) => !matches!(self.stage, TxnStage::Done),
            TxnEvent::Begun => matches!(self.stage, TxnStage::Beginning),
            TxnEvent::Row(_) => matches!(self.stage, TxnStage::AwaitRow) || matches!(
                self.stage,
                TxnStage::Updating
            ),
            TxnEvent::Executed => matches!(self.stage, TxnStage::Recording) || matches!(
                self.stage,
                TxnStage::Cascading(_)
            ),
            TxnEvent::Committed => matches!(self.stage, TxnStage::Committing(_)),
        }
    }

    /// Takes the database's answer and says what to run next.
    pub fn advance(self, ev: TxnEvent) -> (r: (GameTxn, TxnAction))
        requires
            self.stage.accepts(ev),
        ensures
            r == self.next(ev),
    {
        let op = self.op;
        let id = self.id;
        let (stage, action) = match ev {
            TxnEvent::Failed(e) => (TxnStage::Done, TxnAction::Finish(Err(e))),
            TxnEvent::Begun => {
                let a = match op {
                    GameOp::ReserveRandom => TxnAction::LockRandomAt(id),
                    GameOp::Delete => TxnAction::SoftDeleteGame(id),
                    _ => TxnAction::LockGame(id),
                };
                (TxnStage::AwaitRow, a)
            },
            TxnEvent::Row(g) => if matches!(self.stage, TxnStage::AwaitRow) {
                on_row_exec(op, id, g)
            } else {
                (TxnStage::Committing(g), TxnAction::Commit)
            },
            TxnEvent::Executed => match self.stage {
                TxnStage::Cascading(g) => (TxnStage::Committing(g), TxnAction::Commit),
                _ => {
                    let a = match op {
                        GameOp::Disable => TxnAction::SetDisabled(id),
                        _ => TxnAction::ClearReserved(id),
                    };
                    (TxnStage::Updating, a)
                },
            },
            TxnEvent::Committed => match self.stage {
                TxnStage::Committing(g) => (TxnStage::Done, TxnAction::Finish(Ok(g))),
                // Not reached: only `Committing` accepts `Committed`.
                _ => (TxnStage::Done, TxnAction::Commit),
            },
        };
        (GameTxn { op, id, stage }, action)
    }
}

fn on_row_exec(op: GameOp, id: i64, g: Game) -> (r: (TxnStage, TxnAction))
    ensures
        r == on_row(op, id, g),
{
    match op {
        GameOp::Disable => if g.disabled_at.is_some() {
            (TxnStage::Committing(g), TxnAction::Commit)
        } else {
            match g.reserved_at {
                Some(at) => (
                    TxnStage::Recording,
                    TxnAction::RecordReservation { game_id: id, reserved_at: at },
                ),
                None => (TxnStage::Updating, TxnAction::SetDisabled(id)),
            }
        },
        GameOp::Enable => if g.disabled_at.is_none() {
            (TxnStage::Committing(g), TxnAction::Commit)
        } else {
            (TxnStage::Updating, TxnAction::ClearDisabled(id))
        },
        GameOp::Reserve => if g.disabled_at.is_some() {
            (TxnStage::Done, TxnAction::Finish(Err(DbError::Disabled)))
        } else if g.reserved_at.is_some() {
            (TxnStage::Committing(g), TxnAction::Commit)
        } else {
            (TxnStage::Updating, TxnAction::SetReserved(id))
        },
        GameOp::Release => match g.reserved_at {
            None => (TxnStage::Committing(g), TxnAction::Commit),
            Some(at) => (
                TxnStage::Recording,
                TxnAction::RecordReservation { game_id: id, reserved_at: at },
            ),
        },
        GameOp::ReserveRandom => {
            let gid = g.id;
            (TxnStage::Updating, TxnAction::SetReserved(gid))
        },
        GameOp::Delete => (TxnStage::Cascading(g), TxnAction::SoftDeleteNotesOf(id)),
    }
}

impl Game {
    /// Disables the game: a disabled game is returned as it is; a reserved
    /// game has its reservation recorded and dropped; then it is disabled.
    pub fn disable_by_id(id: i64) -> (r: (GameTxn, TxnAction))
        ensures
            r.0 == GameTxn::started(GameOp::Disable, id),
            r.1 is Begin,
    {
        GameTxn::start(GameOp::Disable, id)
    }

    /// Enables the game; an enabled game is returned as it is.
    pub fn enable_by_id(id: i64) -> (r: (GameTxn, TxnAction))
        ensures
            r.0 == GameTxn::started(GameOp::Enable, id),
            r.1 is Begin,
    {
        GameTxn::start(GameOp::Enable, id)
    }

    /// Reserves the game: a disabled game is refused, a reserved game is
    /// returned as it is.
    pub fn reserve_by_id(id: i64) -> (r: (GameTxn, TxnAction))
        ensures
            r.0 == GameTxn::started(GameOp::Reserve, id),
            r.1 is Begin,
    {
        GameTxn::start(GameOp::Reserve, id)
    }

    /// Releases the game's reservation, recording it; an unreserved game is
    /// returned as it is.
    pub fn release_reservation_by_id(id: i64) -> (r: (GameTxn, TxnAction))
        ensures
            r.0 == GameTxn::started(GameOp::Release, id),
            r.1 is Begin,
    {
        GameTxn::start(GameOp::Release, id)
    }

    /// Reserves a random available game at the location.
    pub fn reserve_random_by_location_id(location_id: i64) -> (r: (GameTxn, TxnAction))
        ensures
            r.0 == GameTxn::started(GameOp::ReserveRandom, location_id),
            r.1 is Begin,
    {
        GameTxn::start(GameOp::ReserveRandom, location_id)
    }

    /// Soft-deletes the game and its notes.
    pub fn delete_by_id(id: i64) -> (r: (GameTxn, TxnAction))
        ensures
            r.0 == GameTxn::started(GameOp::Delete, id),
            r.1 is Begin,
    {
        GameTxn::start(GameOp::Delete, id)
    }
}

/// Where the deletion of a location stands.
pub enum LocationStage {
    Beginning,
    /// Waiting for the soft-deleted location.
    AwaitRow,
    /// Waiting for the notes of the location's games to be soft-deleted.
    CascadingNotes(Location),
    /// Waiting for the location's games to be soft-deleted.
    CascadingGames(Location),
    Committing(Location),
    Done,
}

/// The deletion of a location in progress.
pub struct LocationTxn {
    pub id: i64,
    pub stage: LocationStage,
}

/// What the database answered to the last action of a location deletion.
pub enum LocationEvent {
    Begun,
    Row(Location),
    Executed,
    Committed,
    Failed(DbError),
}

/// The statement the database is to run next for a location deletion.
pub enum LocationAction {
    Begin,
    /// Soft-delete the live location, returning it.
    SoftDeleteLocation(i64),
    /// Soft-delete the live notes of the live games at the location.
    SoftDeleteNotesAt(i64),
    /// Soft-delete the live games at the location.
    SoftDeleteGamesAt(i64),
    Commit,
    Finish(Result<Location, DbError>),
}

impl LocationStage {
    /// The stage is waiting for an answer of this kind.
    pub open spec fn accepts(self, ev: LocationEvent) -> bool {
        match ev {
            LocationEvent::Failed(_) => !(self is Done),
            LocationEvent::Begun => self is Beginning,
            LocationEvent::Row(_) => self is AwaitRow,
            LocationEvent::Executed => self is CascadingNotes || self is CascadingGames,
            LocationEvent::Committed => self is Committing,
        }
    }
}

impl LocationTxn {
    /// The next stage and action, given the database's answer. The notes
    /// go first: their statement reaches them through their live games.
    pub open spec fn next(self, ev: LocationEvent) -> (LocationTxn, LocationAction) {
        let id = self.id;
        let (stage, action) = match ev {
            LocationEvent::Failed(e) => (LocationStage::Done, LocationAction::Finish(Err(e))),
            LocationEvent::Begun => (LocationStage::AwaitRow, LocationAction::SoftDeleteLocation(id)),
            LocationEvent::Row(l) => (
                LocationStage::CascadingNotes(l),
                LocationAction::SoftDeleteNotesAt(id),
            ),
            LocationEvent::Executed => match self.stage {
                LocationStage::CascadingNotes(l) => (
                    LocationStage::CascadingGames(l),
                    LocationAction::SoftDeleteGamesAt(id),
                ),
                LocationStage::CascadingGames(l) => (LocationStage::Committing(l), LocationAction::Commit),
                // Not reached: only the cascading stages accept `Executed`.
                _ => (LocationStage::Done, LocationAction::Commit),
            },
            LocationEvent::Committed => match self.stage {
                LocationStage::Committing(l) => (LocationStage::Done, LocationAction::Finish(Ok(l))),
                // Not reached: only `Committing` accepts `Committed`.
                _ => (LocationStage::Done, LocationAction::Commit),
            },
        };
        (LocationTxn { id, stage }, action)
    }

    /// Whether the deletion is waiting for an answer of this kind.
    pub fn accepts(&self, ev: &LocationEvent) -> (b: bool)
        ensures
            b == self.stage.accepts(*ev),
    {
        match ev {
            LocationEvent::Failed(_) => !matches!(self.stage, LocationStage::Done),
            LocationEvent::Begun => matches!(self.stage, LocationStage::Beginning),
            LocationEvent::Row(_) => matches!(self.stage, LocationStage::AwaitRow),
            LocationEvent::Executed => matches!(self.stage, LocationStage::CascadingNotes(_))
                || matches!(self.stage, LocationStage::CascadingGames(_)),
            LocationEvent::Committed => matches!(self.stage, LocationStage::Committing(_)),
        }
    }

    /// Takes the database's answer and says what to run next.
    pub fn advance(self, ev: LocationEvent) -> (r: (LocationTxn, LocationAction))
        requires
            self.stage.accepts(ev),
        ensures
            r == self.next(ev),
    {
        let id = self.id;
        let (stage, action) = match ev {
            LocationEvent::Failed(e) => (LocationStage::Done, LocationAction::Finish(Err(e))),
            LocationEvent::Begun => (LocationStage::AwaitRow, LocationAction::SoftDeleteLocation(id)),
            LocationEvent::Row(l) => (
                LocationStage::CascadingNotes(l),
                LocationAction::SoftDeleteNotesAt(id),
            ),
            LocationEvent::Executed => match self.stage {
                LocationStage::CascadingNotes(l) => (
                    LocationStage::CascadingGames(l),
                    LocationAction::SoftDeleteGamesAt(id),
                ),
                LocationStage::CascadingGames(l) => (LocationStage::Committing(l), LocationAction::Commit),
                // Not reached: only the cascading stages accept `Executed`.
                _ => (LocationStage::Done, LocationAction::Commit),
            },
            LocationEvent::Committed => match self.stage {
                LocationStage::Committing(l) => (LocationStage::Done, LocationAction::Finish(Ok(l))),
                // Not reached: only `Committing` accepts `Committed`.
                _ => (LocationStage::Done, LocationAction::Commit),
            },
        };
        (LocationTxn { id, stage }, action)
    }
}

impl Location {
    /// Soft-deletes the location, the notes of its games and its games, in
    /// one transaction.
    pub fn delete_by_id(id: i64) -> (r: (LocationTxn, LocationAction))
        ensures
            r.0 == (LocationTxn { id, stage: LocationStage::Beginning }),
            r.1 is Begin,
    {
        (LocationTxn { id, stage: LocationStage::Beginning }, LocationAction::Begin)
    }
}

} // verus!
