//! What holds after any sequence of operations: a deleted game stays
//! deleted.
use chrono::NaiveDateTime;
use vstd::prelude::*;

use crate::db::{DbError, Game};
use crate::model::{
    apply, apply_all, drive, drive_location, fresh_for, fresh_throughout, keeps_deleted, read_answer,
    respond, respond_location, run_game_txn, run_location_delete, Database, Elapsed, Failures,
    Operation,
};
use crate::read_laws::{missing_game_is_not_read, successful_delete_deletes};
use crate::reads::{ReadAction, ReadEvent, ReadStage, ReadTxn};
use crate::txn::{GameOp, GameTxn, LocationAction, LocationEvent, LocationStage, LocationTxn, TxnAction, TxnEvent};

verus! {

proof fn lemma_respond_keeps(work: Database, a: TxnAction, now: NaiveDateTime, elapsed: Elapsed, pick: i64, failure: Option<DbError>)
    requires
        work.wf(),
    ensures
        respond(work, a, now, elapsed, pick, failure).0.wf(),
        keeps_deleted(work, respond(work, a, now, elapsed, pick, failure).0),
{
    let w = respond(work, a, now, elapsed, pick, failure).0;
    assert forall|k: i64| #[trigger] w.notes.contains_key(k) implies w.notes[k].id == k by {
        assert(work.notes.contains_key(k));
    }
    assert forall|k: i64| #[trigger] w.games.contains_key(k) implies w.games[k].id == k by {
        assert(work.games.contains_key(k));
    }
}

proof fn lemma_drive_keeps(
    txn: GameTxn,
    ev: TxnEvent,
    work: Database,
    committed: bool,
    now: NaiveDateTime,
    elapsed: Elapsed,
    pick: i64,
    fail: Failures,
    step: nat,
    fuel: nat,
)
    requires
        work.wf(),
    ensures
        drive(txn, ev, work, committed, now, elapsed, pick, fail, step, fuel).0.wf(),
        keeps_deleted(work, drive(txn, ev, work, committed, now, elapsed, pick, fail, step, fuel).0),
    decreases fuel,
{
    let (t, a) = txn.next(ev);
    if !(a is Finish) && fuel > 0 {
        lemma_respond_keeps(work, a, now, elapsed, pick, fail(step));
        let (w, e) = respond(work, a, now, elapsed, pick, fail(step));
        lemma_drive_keeps(t, e, w, committed || e is Committed, now, elapsed, pick, fail, step + 1, (fuel - 1) as nat);
    }
}

proof fn lemma_respond_location_keeps(work: Database, a: LocationAction, now: NaiveDateTime, failure: Option<DbError>)
    requires
        work.wf(),
    ensures
        respond_location(work, a, now, failure).0.wf(),
        keeps_deleted(work, respond_location(work, a, now, failure).0),
{
    let w = respond_location(work, a, now, failure).0;
    assert forall|k: i64| #[trigger] w.notes.contains_key(k) implies w.notes[k].id == k by {
        assert(work.notes.contains_key(k));
    }
    assert forall|k: i64| #[trigger] w.games.contains_key(k) implies w.games[k].id == k by {
        assert(work.games.contains_key(k));
    }
    assert forall|k: i64| #[trigger] w.locations.contains_key(k) implies w.locations[k].id == k by {
        assert(work.locations.contains_key(k));
    }
}

proof fn lemma_drive_location_keeps(
    txn: LocationTxn,
    ev: LocationEvent,
    work: Database,
    committed: bool,
    now: NaiveDateTime,
    fail: Failures,
    step: nat,
    fuel: nat,
)
    requires
        work.wf(),
    ensures
        drive_location(txn, ev, work, committed, now, fail, step, fuel).0.wf(),
        keeps_deleted(work, drive_location(txn, ev, work, committed, now, fail, step, fuel).0),
    decreases fuel,
{
    let (t, a) = txn.next(ev);
    if !(a is Finish) && fuel > 0 {
        lemma_respond_location_keeps(work, a, now, fail(step));
        let (w, e) = respond_location(work, a, now, fail(step));
        lemma_drive_location_keeps(t, e, w, committed || e is Committed, now, fail, step + 1, (fuel - 1) as nat);
    }
}

/// No operation brings a deleted game back: whatever it is, whichever of
/// its statements the driver fails, a game that was soft-deleted is still
/// soft-deleted after it, and every row stays under its own id.
#[verifier::spinoff_prover]
pub proof fn no_operation_revives_a_game(db: Database, op: Operation)
    requires
        db.wf(),
        fresh_for(db, op),
    ensures
        apply(db, op).wf(),
        keeps_deleted(db, apply(db, op)),
{
    let d = apply(db, op);
    match op {
        Operation::GameTransaction { op, id, now, elapsed, pick, fail } => {
            lemma_respond_keeps(db, TxnAction::Begin, now, elapsed, pick, fail(0));
            let (w0, e0) = respond(db, TxnAction::Begin, now, elapsed, pick, fail(0));
            lemma_drive_keeps(GameTxn::started(op, id), e0, w0, false, now, elapsed, pick, fail, 1, 8);
        },
        Operation::DeleteLocation { id, now, fail } => {
            lemma_respond_location_keeps(db, LocationAction::Begin, now, fail(0));
            let (w0, e0) = respond_location(db, LocationAction::Begin, now, fail(0));
            let txn = LocationTxn { id, stage: LocationStage::Beginning };
            lemma_drive_location_keeps(txn, e0, w0, false, now, fail, 1, 8);
        },
        _ => {
            assert forall|k: i64| #[trigger] d.notes.contains_key(k) implies d.notes[k].id == k by {
                if !db.notes.contains_key(k) {
                    assert(op is AddNote);
                }
            }
            assert forall|k: i64| #[trigger] d.games.contains_key(k) implies d.games[k].id == k by {
                if !db.games.contains_key(k) {
                    assert(op is AddGame);
                }
            }
            assert forall|k: i64| #[trigger] d.locations.contains_key(k) implies d.locations[k].id == k by {
                if !db.locations.contains_key(k) {
                    assert(op is AddLocation);
                }
            }
        },
    }
}

/// However many operations follow, a game that was soft-deleted stays
/// soft-deleted, when every created row gets a fresh id.
pub proof fn deleted_games_stay_deleted(db: Database, ops: Seq<Operation>)
    requires
        db.wf(),
        fresh_throughout(db, ops),
    ensures
        apply_all(db, ops).wf(),
        keeps_deleted(db, apply_all(db, ops)),
    decreases ops.len(),
{
    if ops.len() > 0 {
        let init = ops.drop_last();
        assert(fresh_throughout(db, init)) by {
            assert forall|i: int| 0 <= i < init.len() implies fresh_for(#[trigger] apply_all(db, init.take(i)), init[i]) by {
                assert(init.take(i) == ops.take(i));
                assert(fresh_for(apply_all(db, ops.take(i)), ops[i]));
            }
        }
        deleted_games_stay_deleted(db, init);
        let before = apply_all(db, init);
        assert(ops.take(ops.len() - 1) == init);
        assert(fresh_for(apply_all(db, ops.take(ops.len() - 1)), ops[ops.len() - 1]));
        no_operation_revives_a_game(before, ops.last());
    }
}

/// A deleted game stays hidden for good: once its deletion has succeeded,
/// after any operations that follow, every read of it finishes with a
/// failure ("not found" unless the driver failed), and every transaction
/// that names it is not found and changes nothing.
pub proof fn deleted_game_stays_hidden_for_good(
    id: i64,
    db: Database,
    now: NaiveDateTime,
    elapsed: Elapsed,
    pick: i64,
    fail: Failures,
    ops: Seq<Operation>,
    now2: NaiveDateTime,
    elapsed2: Elapsed,
    ev: ReadEvent,
    r: (ReadTxn, ReadAction),
    op: GameOp,
    pick2: i64,
    fail2: Failures,
)
    requires
        db.wf(),
        run_game_txn(GameOp::Delete, id, db, now, elapsed, pick, fail).1 is Ok,
        fresh_throughout(run_game_txn(GameOp::Delete, id, db, now, elapsed, pick, fail).0, ops),
    ensures
        ({
            let later = apply_all(run_game_txn(GameOp::Delete, id, db, now, elapsed, pick, fail).0, ops);
            &&& !later.live_game(id)
            &&& (read_answer(later, ReadAction::FetchGame(id), now2, elapsed2, ev) || ev is Failed) && (ReadTxn {
                id,
                stage: ReadStage::AwaitGame,
            }).steps_to(ev, r) ==> (r.1 matches ReadAction::FinishGame(Err(_)))
            &&& !(op is ReserveRandom) ==> run_game_txn(op, id, later, now2, elapsed2, pick2, fail2).0 == later
                && run_game_txn(op, id, later, now2, elapsed2, pick2, fail2).1 is Err
        }),
{
    successful_delete_deletes(id, db, now, elapsed, pick, fail);
    let deleted = run_game_txn(GameOp::Delete, id, db, now, elapsed, pick, fail).0;
    no_operation_revives_a_game(db, Operation::GameTransaction { op: GameOp::Delete, id, now, elapsed, pick, fail });
    deleted_games_stay_deleted(deleted, ops);
    let later = apply_all(deleted, ops);
    assert(!later.live_game(id));
    if (read_answer(later, ReadAction::FetchGame(id), now2, elapsed2, ev) || ev is Failed) && (ReadTxn {
        id,
        stage: ReadStage::AwaitGame,
    }).steps_to(ev, r) {
        missing_game_is_not_read(later, id, now2, elapsed2, ev, r);
    }
    if !(op is ReserveRandom) {
        lemma_missing_game_fails(op, id, later, now2, elapsed2, pick2, fail2);
    }
}

/// A transaction that names a game that is not live fails and changes
/// nothing, whichever statements the driver fails.
#[verifier::spinoff_prover]
proof fn lemma_missing_game_fails(op: GameOp, id: i64, db: Database, now: NaiveDateTime, elapsed: Elapsed, pick: i64, fail: Failures)
    requires
        !db.live_game(id),
        !(op is ReserveRandom),
    ensures
        run_game_txn(op, id, db, now, elapsed, pick, fail).0 == db,
        run_game_txn(op, id, db, now, elapsed, pick, fail).1 is Err,
{
    reveal_with_fuel(drive, 3);
}

} // verus!
