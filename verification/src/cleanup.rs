//! The background task that releases forgotten reservations.
//!
//! Every fifteen minutes it looks for the games reserved for more than
//! ninety minutes and releases each of them.
use chrono::NaiveDateTime;
use vstd::prelude::*;

use crate::db::{DbError, Game};
use crate::laws::game_txn_does_its_outcome;
use crate::model::{reliably, run_game_txn, Database, Elapsed};
use crate::reads::{game_ids, ids_of};
use crate::txn::GameOp;

verus! {

/// A reservation older than this many minutes is released.
pub const RESERVATION_TIMEOUT_MINUTES: i32 = 90;

/// The pause between two passes, in seconds.
pub const CLEANUP_INTERVAL_SECONDS: u64 = 15 * 60;

/// Where the task stands.
pub enum CleanupStage {
    /// Waiting for the pause to end.
    Sleeping,
    /// Waiting for the games reserved too long.
    Finding,
    /// Releasing `ids`; `next` is the position of the one after the
    /// release in progress.
    Releasing { ids: Vec<i64>, next: usize },
}

/// What happened since the last action.
pub enum CleanupEvent {
    Woke,
    Found(Vec<Game>),
    FindFailed(DbError),
    Released(Result<Game, DbError>),
}

/// What the task does next.
pub enum CleanupAction {
    /// Pause for this many seconds.
    Sleep(u64),
    /// Find the live games reserved for more than this many minutes, oldest
    /// reservation first.
    FindReservedLongerThan(i32),
    /// Release the reservation of this game.
    Release(i64),
}

/// The cleanup task.
pub struct Cleanup {
    pub stage: CleanupStage,
}

impl CleanupStage {
    pub open spec fn accepts(self, ev: CleanupEvent) -> bool {
        match ev {
            CleanupEvent::Woke => self is Sleeping,
            CleanupEvent::Found(_) | CleanupEvent::FindFailed(_) => self is Finding,
            CleanupEvent::Released(_) => self matches CleanupStage::Releasing { ids, next } && 0 < next
                <= ids.len(),
        }
    }
}

impl Cleanup {
    /// `r` is the next stage and action after `ev`.
    pub open spec fn steps_to(self, ev: CleanupEvent, r: (Cleanup, CleanupAction)) -> bool {
        let (c, a) = r;
        let pause = (c.stage is Sleeping && a == CleanupAction::Sleep(CLEANUP_INTERVAL_SECONDS));
        match ev {
            CleanupEvent::Woke => c.stage is Finding && a == CleanupAction::FindReservedLongerThan(
                RESERVATION_TIMEOUT_MINUTES,
            ),
            CleanupEvent::FindFailed(_) => pause,
            CleanupEvent::Found(gs) => if gs.len() == 0 {
                pause
            } else {
                c.stage matches CleanupStage::Releasing { ids, next } && ids@ == game_ids(gs@) && next == 1
                    && a == CleanupAction::Release(gs[0].id)
            },
            CleanupEvent::Released(_) => match self.stage {
                CleanupStage::Releasing { ids, next } => if next < ids.len() {
                    c.stage matches CleanupStage::Releasing { ids: ids2, next: next2 } && ids2@ == ids@
                        && next2 == next + 1 && a == CleanupAction::Release(ids[next as int])
                } else {
                    pause
                },
                _ => true,
            },
        }
    }

    /// The task begins with a pause.
    pub fn start() -> (r: (Cleanup, CleanupAction))
        ensures
            r.0.stage is Sleeping,
            r.1 == CleanupAction::Sleep(CLEANUP_INTERVAL_SECONDS),
    {
        (Cleanup { stage: CleanupStage::Sleeping }, CleanupAction::Sleep(CLEANUP_INTERVAL_SECONDS))
    }

    /// Whether the task is waiting for this event.
    pub fn accepts(&self, ev: &CleanupEvent) -> (b: bool)
        ensures
            b == self.stage.accepts(*ev),
    {
        match ev {
            CleanupEvent::Woke => matches!(self.stage, CleanupStage::Sleeping),
            CleanupEvent::Found(_) | CleanupEvent::FindFailed(_) => matches!(self.stage, CleanupStage::Finding),
            CleanupEvent::Released(_) => match &self.stage {
                CleanupStage::Releasing { ids, next } => 0 < *next && *next <= ids.len(),
                _ => false,
            },
        }
    }

    /// Takes what happened and says what to do next. A failed search or a
    /// failed release does not stop the task.
    pub fn advance(self, ev: CleanupEvent) -> (r: (Cleanup, CleanupAction))
        requires
            self.stage.accepts(ev),
        ensures
            self.steps_to(ev, r),
    {
        let pause = (Cleanup { stage: CleanupStage::Sleeping }, CleanupAction::Sleep(CLEANUP_INTERVAL_SECONDS));
        match ev {
            CleanupEvent::Woke => (
                Cleanup { stage: CleanupStage::Finding },
                CleanupAction::FindReservedLongerThan(RESERVATION_TIMEOUT_MINUTES),
            ),
            CleanupEvent::FindFailed(_) => pause,
            CleanupEvent::Found(gs) => {
                let ids = ids_of(&gs);
                if ids.len() == 0 {
                    pause
                } else {
                    let first = ids[0];
                    (Cleanup { stage: CleanupStage::Releasing { ids, next: 1 } }, CleanupAction::Release(first))
                }
            },
            CleanupEvent::Released(_) => match self.stage {
                CleanupStage::Releasing { ids, next } => if next < ids.len() {
                    let id = ids[next];
                    (
                        Cleanup { stage: CleanupStage::Releasing { ids, next: next + 1 } },
                        CleanupAction::Release(id),
                    )
                } else {
                    pause
                },
                // Not reached: only `Releasing` accepts a release.
                _ => pause,
            },
        }
    }
}

/// The game is live and has been reserved for more than the timeout at `now`.
pub open spec fn overdue(db: Database, g: i64, now: NaiveDateTime, elapsed: Elapsed) -> bool {
    &&& db.live_game(g)
    &&& db.games[g].reserved_at is Some
    &&& elapsed(db.games[g].reserved_at->0, now) > RESERVATION_TIMEOUT_MINUTES
}

/// The database after releasing the games `ids` one after the other, the
/// release of `ids[i]` running at `nows(i)`, the driver failing nothing.
pub open spec fn release_all(db: Database, ids: Seq<i64>, nows: spec_fn(int) -> NaiveDateTime, elapsed: Elapsed) -> Database
    decreases ids.len(),
{
    if ids.len() == 0 {
        db
    } else {
        let before = release_all(db, ids.drop_last(), nows, elapsed);
        run_game_txn(GameOp::Release, ids.last(), before, nows(ids.len() - 1), elapsed, 0, reliably()).0
    }
}

proof fn lemma_release_all(db: Database, ids: Seq<i64>, nows: spec_fn(int) -> NaiveDateTime, elapsed: Elapsed)
    requires
        db.wf(),
    ensures
        ({
            let after = release_all(db, ids, nows, elapsed);
            &&& after.wf()
            &&& forall|g: i64| #[trigger] after.live_game(g) ==> db.live_game(g)
            &&& forall|g: i64|
                #[trigger] after.live_game(g) && after.games[g].reserved_at is Some ==> !ids.contains(g)
                    && after.games[g].reserved_at == db.games[g].reserved_at
        }),
    decreases ids.len(),
{
    if ids.len() > 0 {
        let prefix = ids.drop_last();
        lemma_release_all(db, prefix, nows, elapsed);
        let before = release_all(db, prefix, nows, elapsed);
        let id = ids.last();
        game_txn_does_its_outcome(GameOp::Release, id, before, nows(ids.len() - 1), elapsed, 0, reliably());
        let after = release_all(db, ids, nows, elapsed);
        assert forall|g: i64| #[trigger] after.live_game(g) implies db.live_game(g) by {
            assert(before.live_game(g));
        }
        assert forall|g: i64|
            #[trigger] after.live_game(g) && after.games[g].reserved_at is Some implies !ids.contains(g)
                && after.games[g].reserved_at == db.games[g].reserved_at by {
            assert(before.live_game(g));
            assert(g != id);
            assert(!prefix.contains(g));
            if ids.contains(g) {
                let j = choose|j: int| 0 <= j < ids.len() && ids[j] == g;
                assert(prefix[j] == g);
            }
        }
    }
}

/// A cleanup pass keeps its promise: when the games it releases include
/// every game that was overdue when it looked, no live game is left
/// reserved that was overdue then, whenever each release runs.
pub proof fn cleanup_leaves_nothing_overdue(
    db: Database,
    ids: Seq<i64>,
    now: NaiveDateTime,
    nows: spec_fn(int) -> NaiveDateTime,
    elapsed: Elapsed,
)
    requires
        db.wf(),
        forall|g: i64| #[trigger] overdue(db, g, now, elapsed) ==> ids.contains(g),
    ensures
        forall|g: i64| !#[trigger] overdue(release_all(db, ids, nows, elapsed), g, now, elapsed),
{
    lemma_release_all(db, ids, nows, elapsed);
    let after = release_all(db, ids, nows, elapsed);
    assert forall|g: i64| !#[trigger] overdue(after, g, now, elapsed) by {
        if overdue(after, g, now, elapsed) {
            assert(overdue(db, g, now, elapsed));
        }
    }
}

proof fn lemma_releasing(
    c0: Cleanup,
    found: Vec<Game>,
    cs: Seq<Cleanup>,
    acts: Seq<CleanupAction>,
    results: Seq<Result<Game, DbError>>,
    j: int,
)
    requires
        c0.stage is Finding,
        found.len() > 0,
        cs.len() == found.len() + 1,
        acts.len() == found.len() + 1,
        results.len() == found.len(),
        c0.steps_to(CleanupEvent::Found(found), (cs[0], acts[0])),
        forall|i: int|
            0 <= i < found.len() ==> #[trigger] cs[i].steps_to(
                CleanupEvent::Released(results[i]),
                (cs[i + 1], acts[i + 1]),
            ),
        0 <= j < found.len(),
    ensures
        cs[j].stage matches CleanupStage::Releasing { ids, next } && next == j + 1 && ids@.len() == found.len()
            && forall|i: int| 0 <= i < found.len() ==> ids@[i] == found@[i].id,
        acts[j] == CleanupAction::Release(found@[j].id),
    decreases j,
{
    if j > 0 {
        lemma_releasing(c0, found, cs, acts, results, j - 1);
        assert(cs[j - 1].steps_to(CleanupEvent::Released(results[j - 1]), (cs[j], acts[j])));
    }
}

/// A cleanup pass releases every game its search found, in the order
/// found, each once, and only then sleeps again; it sleeps at once only
/// when the search found nothing. `acts[j]` is what the task asks for
/// after the search (`j == 0`) and after the `j`-th release.
pub proof fn cleanup_releases_every_found_game(
    c0: Cleanup,
    found: Vec<Game>,
    cs: Seq<Cleanup>,
    acts: Seq<CleanupAction>,
    results: Seq<Result<Game, DbError>>,
)
    requires
        c0.stage is Finding,
        cs.len() == found.len() + 1,
        acts.len() == found.len() + 1,
        results.len() == found.len(),
        c0.steps_to(CleanupEvent::Found(found), (cs[0], acts[0])),
        forall|i: int|
            0 <= i < found.len() ==> #[trigger] cs[i].steps_to(
                CleanupEvent::Released(results[i]),
                (cs[i + 1], acts[i + 1]),
            ),
    ensures
        forall|j: int| 0 <= j < found.len() ==> #[trigger] acts[j] == CleanupAction::Release(found@[j].id),
        acts[found.len() as int] == CleanupAction::Sleep(CLEANUP_INTERVAL_SECONDS),
        cs[found.len() as int].stage is Sleeping,
{
    if found.len() > 0 {
        assert forall|j: int| 0 <= j < found.len() implies #[trigger] acts[j] == CleanupAction::Release(found@[j].id) by {
            lemma_releasing(c0, found, cs, acts, results, j);
        }
        let last = found.len() - 1;
        lemma_releasing(c0, found, cs, acts, results, last);
        assert(cs[last].steps_to(CleanupEvent::Released(results[last]), (cs[last + 1], acts[last + 1])));
    }
}

} // verus!
