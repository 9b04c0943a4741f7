//! What the reads give back, against the rows the database holds.
use chrono::NaiveDateTime;
use vstd::prelude::*;

use crate::db::{builds, notes_for, Note};
use crate::model::{distinct_notes, drive, read_answer, report, run_game_txn, Database, Elapsed, Failures};
use crate::reads::{game_ids, ReadAction, ReadEvent, ReadStage, ReadTxn};
use crate::txn::GameOp;

verus! {

/// A game that does not exist or has been deleted is never read: reading
/// it finishes with a failure, "not found" unless the driver failed.
pub proof fn missing_game_is_not_read(
    db: Database,
    id: i64,
    now: NaiveDateTime,
    elapsed: Elapsed,
    ev: ReadEvent,
    r: (ReadTxn, ReadAction),
)
    requires
        !db.live_game(id),
        read_answer(db, ReadAction::FetchGame(id), now, elapsed, ev) || ev is Failed,
        (ReadTxn { id, stage: ReadStage::AwaitGame }).steps_to(ev, r),
    ensures
        r.1 matches ReadAction::FinishGame(Err(e)) && (read_answer(db, ReadAction::FetchGame(id), now, elapsed, ev)
            ==> e is NotFound),
{
}

/// A deletion of a game that succeeded did delete it: the game is held,
/// soft-deleted.
pub proof fn successful_delete_deletes(
    id: i64,
    db: Database,
    now: NaiveDateTime,
    elapsed: Elapsed,
    pick: i64,
    fail: Failures,
)
    requires
        db.wf(),
    ensures
        ({
            let (after, r) = run_game_txn(GameOp::Delete, id, db, now, elapsed, pick, fail);
            r is Ok ==> !after.live_game(id) && after.games.contains_key(id) && after.games[id].deleted_at is Some
        }),
{
    reveal_with_fuel(drive, 8);
}

/// A deleted game is invisible to the read that follows its deletion: the
/// read finishes with a failure. `history::deleted_game_stays_hidden_for_good`
/// carries this through any operations that follow.
pub proof fn deleted_game_stays_unread(
    id: i64,
    db: Database,
    now1: NaiveDateTime,
    elapsed1: Elapsed,
    pick: i64,
    fail: Failures,
    now2: NaiveDateTime,
    elapsed2: Elapsed,
    ev: ReadEvent,
    r: (ReadTxn, ReadAction),
)
    requires
        db.wf(),
        run_game_txn(GameOp::Delete, id, db, now1, elapsed1, pick, fail).1 is Ok,
        read_answer(run_game_txn(GameOp::Delete, id, db, now1, elapsed1, pick, fail).0, ReadAction::FetchGame(id), now2, elapsed2, ev)
            || ev is Failed,
        (ReadTxn { id, stage: ReadStage::AwaitGame }).steps_to(ev, r),
    ensures
        r.1 matches ReadAction::FinishGame(Err(_)),
{
    successful_delete_deletes(id, db, now1, elapsed1, pick, fail);
    let db1 = run_game_txn(GameOp::Delete, id, db, now1, elapsed1, pick, fail).0;
    missing_game_is_not_read(db1, id, now2, elapsed2, ev, r);
}

proof fn lemma_notes_for_contains(ns: Seq<Note>, id: i64, n: Note)
    ensures
        notes_for(ns, id).contains(n) <==> ns.contains(n) && n.game_id == id,
    decreases ns.len(),
{
    if ns.len() > 0 {
        lemma_notes_for_contains(ns.drop_last(), id, n);
        let rest = notes_for(ns.drop_last(), id);
        assert(ns == ns.drop_last().push(ns.last()));
        assert(ns.contains(n) <==> ns.drop_last().contains(n) || ns.last() == n) by {
            if ns.contains(n) {
                let j = choose|j: int| 0 <= j < ns.len() && ns[j] == n;
                if j < ns.len() - 1 {
                    assert(ns.drop_last()[j] == n);
                }
            }
            if ns.drop_last().contains(n) {
                let j = choose|j: int| 0 <= j < ns.drop_last().len() && ns.drop_last()[j] == n;
                assert(ns[j] == n);
            }
            if ns.last() == n {
                assert(ns[ns.len() - 1] == n);
            }
        }
        if ns.last().game_id == id {
            let p = rest.push(ns.last());
            assert(p.contains(n) <==> rest.contains(n) || ns.last() == n) by {
                if p.contains(n) {
                    let j = choose|j: int| 0 <= j < p.len() && p[j] == n;
                    if j < rest.len() {
                        assert(rest[j] == n);
                    }
                }
                if rest.contains(n) {
                    let j = choose|j: int| 0 <= j < rest.len() && rest[j] == n;
                    assert(p[j] == n);
                }
                if ns.last() == n {
                    assert(p[rest.len() as int] == n);
                }
            }
        }
    }
}

proof fn lemma_distinct_notes_for(ns: Seq<Note>, id: i64)
    requires
        distinct_notes(ns),
    ensures
        distinct_notes(notes_for(ns, id)),
    decreases ns.len(),
{
    if ns.len() > 0 {
        let init = ns.drop_last();
        assert(distinct_notes(init)) by {
            assert forall|i: int, j: int| 0 <= i < j < init.len() implies #[trigger] init[i].id != #[trigger] init[j].id by {
                assert(init[i] == ns[i] && init[j] == ns[j]);
            }
        }
        lemma_distinct_notes_for(init, id);
        let rest = notes_for(init, id);
        if ns.last().game_id == id {
            let p = rest.push(ns.last());
            assert forall|i: int, j: int| 0 <= i < j < p.len() implies #[trigger] p[i].id != #[trigger] p[j].id by {
                if j == rest.len() {
                    lemma_notes_for_contains(init, id, rest[i]);
                    assert(rest.contains(rest[i]));
                    let m = choose|m: int| 0 <= m < init.len() && init[m] == rest[i];
                    assert(ns[m] == rest[i]);
                    assert(ns[ns.len() - 1] == ns.last());
                } else {
                    assert(p[i] == rest[i] && p[j] == rest[j]);
                }
            }
        }
    }
}

/// Listing the games of a location gives, when the driver does not fail,
/// exactly the live games at it, each once, grouped by abbreviation and by
/// ascending id within one, each with exactly its live notes, once each and
/// in the order the notes query returned them; a location that does not
/// exist or has been deleted is not found.
pub proof fn listing_shows_live_games_with_live_notes(
    location_id: i64,
    db: Database,
    now: NaiveDateTime,
    elapsed: Elapsed,
    ev1: ReadEvent,
    r1: (ReadTxn, ReadAction),
    ev2: ReadEvent,
    r2: (ReadTxn, ReadAction),
)
    requires
        db.wf(),
        read_answer(db, ReadAction::FetchGamesAt(location_id), now, elapsed, ev1),
        (ReadTxn { id: location_id, stage: ReadStage::AwaitGames }).steps_to(ev1, r1),
        read_answer(db, r1.1, now, elapsed, ev2),
        r1.0.steps_to(ev2, r2),
    ensures
        r2.1 matches ReadAction::FinishGames(res) && (res is Err <==> !db.live_location(location_id)) && (
        res matches Ok(v) ==> {
            &&& forall|i: int|
                0 <= i < v.len() ==> {
                    &&& db.live_game(#[trigger] v[i].id)
                    &&& db.games[v[i].id].location_id == location_id
                    &&& forall|n: Note| #[trigger]
                        v[i].notes@.contains(n) <==> exists|k: i64|
                            #[trigger] db.live_note(k) && db.notes[k] == n && n.game_id == v[i].id
                }
            &&& forall|k: i64|
                #[trigger] db.live_game(k) && db.games[k].location_id == location_id ==> exists|i: int|
                    0 <= i < v.len() && #[trigger] v[i].id == k
            &&& forall|i: int, j: int| 0 <= i < j < v.len() ==> #[trigger] v[i].id != #[trigger] v[j].id
            &&& forall|i: int, j: int|
                0 <= i < j < v.len() && #[trigger] v[i].abbreviation@ == #[trigger] v[j].abbreviation@
                    ==> v[i].id < v[j].id
            &&& forall|i: int, j: int, k: int|
                0 <= i < j < k < v.len() && #[trigger] v[i].abbreviation@ == #[trigger] v[k].abbreviation@
                    ==> #[trigger] v[j].abbreviation@ == v[i].abbreviation@
            &&& ev2 matches ReadEvent::Notes(ns) ==> forall|i: int|
                0 <= i < v.len() ==> #[trigger] v[i].notes@ == notes_for(ns@, v[i].id) && distinct_notes(
                    v[i].notes@,
                )
            &&& forall|i: int|
                0 <= i < v.len() ==> {
                    let row = db.games[#[trigger] v[i].id];
                    &&& v[i].location_id == location_id
                    &&& v[i].name@ == row.name@
                    &&& v[i].abbreviation@ == row.abbreviation@
                    &&& v[i].disabled_at == row.disabled_at
                    &&& v[i].reserved_at == row.reserved_at
                    &&& v[i].deleted_at is None
                    &&& v[i].created_at == row.created_at
                    &&& v[i].reserved_minutes == match row.reserved_at {
                        None => 0,
                        Some(at) => elapsed(at, now),
                    }
                }
        }),
{
    if let ReadEvent::Games(gs) = ev1 {
        if gs.len() == 0 {
            if db.live_location(location_id) {
                assert forall|k: i64|
                    #[trigger] db.live_game(k) && db.games[k].location_id == location_id implies false by {
                    let i = choose|i: int| 0 <= i < gs.len() && #[trigger] gs[i].id == k;
                }
            }
        } else {
            assert(db.live_location(location_id)) by {
                assert(db.live_game(gs[0].id));
            }
            if let ReadEvent::Notes(ns) = ev2 {
                let ids = game_ids(gs@);
                assert forall|i: int| 0 <= i < gs.len() implies !crate::db::claimed(gs@, i, #[trigger] gs[i].id) by {
                    if crate::db::claimed(gs@, i, gs[i].id) {
                        let j = choose|j: int| 0 <= j < i && #[trigger] gs@[j].id == gs[i].id;
                        assert(gs[j].id != gs[i].id);
                    }
                }
                if let ReadAction::FinishGames(Ok(v)) = r2.1 {
                    assert forall|i: int| 0 <= i < v.len() implies {
                        &&& db.live_game(#[trigger] v[i].id)
                        &&& db.games[v[i].id].location_id == location_id
                        &&& forall|n: Note| #[trigger]
                            v[i].notes@.contains(n) <==> exists|k: i64|
                                #[trigger] db.live_note(k) && db.notes[k] == n && n.game_id == v[i].id
                    } by {
                        assert(!crate::db::claimed(gs@, i, gs[i].id));
                        assert(v[i].notes@ == notes_for(ns@, gs[i].id));
                        assert(ids[i] == gs[i].id);
                        assert forall|n: Note| #[trigger]
                            v[i].notes@.contains(n) <==> exists|k: i64|
                                #[trigger] db.live_note(k) && db.notes[k] == n && n.game_id == v[i].id by {
                            lemma_notes_for_contains(ns@, gs[i].id, n);
                            if exists|k: i64| #[trigger] db.live_note(k) && db.notes[k] == n && n.game_id == v[i].id {
                                assert(ids.contains(n.game_id));
                            }
                        }
                    }
                    assert forall|k: i64|
                        #[trigger] db.live_game(k) && db.games[k].location_id == location_id implies exists|i: int|
                            0 <= i < v.len() && #[trigger] v[i].id == k by {
                        let i = choose|i: int| 0 <= i < gs.len() && #[trigger] gs[i].id == k;
                        assert(v[i].id == k);
                    }
                    assert forall|i: int, j: int| 0 <= i < j < v.len() implies #[trigger] v[i].id != #[trigger] v[j].id by {
                        assert(v[i].id == gs[i].id && v[j].id == gs[j].id);
                    }
                    assert forall|i: int, j: int|
                        0 <= i < j < v.len() && #[trigger] v[i].abbreviation@ == #[trigger] v[j].abbreviation@ implies v[i].id
                            < v[j].id by {
                        assert(v[i].abbreviation == gs[i].abbreviation && v[j].abbreviation == gs[j].abbreviation);
                        assert(gs[i].abbreviation@ == gs[j].abbreviation@);
                    }
                    assert forall|i: int, j: int, k: int|
                        0 <= i < j < k < v.len() && #[trigger] v[i].abbreviation@ == #[trigger] v[k].abbreviation@ implies
                            #[trigger] v[j].abbreviation@ == v[i].abbreviation@ by {
                        assert(v[i].abbreviation == gs[i].abbreviation && v[j].abbreviation == gs[j].abbreviation
                            && v[k].abbreviation == gs[k].abbreviation);
                        assert(gs[i].abbreviation@ == gs[k].abbreviation@);
                        assert(gs[j].abbreviation@ == gs[i].abbreviation@);
                    }
                    assert forall|i: int| 0 <= i < v.len() implies #[trigger] v[i].notes@ == notes_for(ns@, v[i].id)
                        && distinct_notes(v[i].notes@) by {
                        assert(!crate::db::claimed(gs@, i, gs[i].id));
                        lemma_distinct_notes_for(ns@, gs[i].id);
                    }
                }
            }
        }
    }
}

/// The reads keep to their protocol: whatever the database answers to the
/// query a read asks for, a failure included, is an answer the read accepts
/// next.
pub proof fn read_accepts_every_answer(
    txn: ReadTxn,
    ev: ReadEvent,
    r: (ReadTxn, ReadAction),
    db: Database,
    now: NaiveDateTime,
    elapsed: Elapsed,
    answer: ReadEvent,
)
    requires
        txn.stage.accepts(ev),
        txn.steps_to(ev, r),
        !(r.1 is FinishGame || r.1 is FinishGames),
        read_answer(db, r.1, now, elapsed, answer) || answer is Failed,
    ensures
        r.0.stage.accepts(answer),
{
}

/// Reading a live game gives, when the driver does not fail, the game as
/// stored, with its reserved minutes, and exactly its live notes, once each,
/// in the order the notes query returned them.
pub proof fn reading_a_game_shows_it_with_its_live_notes(
    id: i64,
    db: Database,
    now: NaiveDateTime,
    elapsed: Elapsed,
    ev1: ReadEvent,
    r1: (ReadTxn, ReadAction),
    ev2: ReadEvent,
    r2: (ReadTxn, ReadAction),
)
    requires
        db.wf(),
        db.live_game(id),
        read_answer(db, ReadAction::FetchGame(id), now, elapsed, ev1),
        (ReadTxn { id, stage: ReadStage::AwaitGame }).steps_to(ev1, r1),
        read_answer(db, r1.1, now, elapsed, ev2),
        r1.0.steps_to(ev2, r2),
    ensures
        r2.1 matches ReadAction::FinishGame(Ok(w)) && ev2 matches ReadEvent::Notes(ns) && builds(
            w,
            report(db.games[id], now, elapsed),
            ns@,
        ) && distinct_notes(w.notes@) && forall|n: Note| #[trigger]
            w.notes@.contains(n) <==> exists|k: i64| #[trigger] db.live_note(k) && db.notes[k] == n && n.game_id == id,
        r2.1 matches ReadAction::FinishGame(Ok(w)) ==> {
            &&& w.id == id
            &&& w.location_id == db.games[id].location_id
            &&& w.name@ == db.games[id].name@
            &&& w.abbreviation@ == db.games[id].abbreviation@
            &&& w.disabled_at == db.games[id].disabled_at
            &&& w.reserved_at == db.games[id].reserved_at
            &&& w.deleted_at is None
            &&& w.created_at == db.games[id].created_at
            &&& w.reserved_minutes == match db.games[id].reserved_at {
                None => 0,
                Some(at) => elapsed(at, now),
            }
        },
{
    if let ReadEvent::Notes(ns) = ev2 {
        if let ReadAction::FetchNotesOf(ids) = r1.1 {
            assert(ids@ == seq![id]);
            assert forall|n: Note| #[trigger]
                ns@.contains(n) <==> exists|k: i64| #[trigger] db.live_note(k) && db.notes[k] == n && n.game_id == id by {
                if exists|k: i64| #[trigger] db.live_note(k) && db.notes[k] == n && n.game_id == id {
                    assert(ids@[0] == n.game_id);
                    assert(ids@.contains(n.game_id));
                }
                if ns@.contains(n) {
                    let k = choose|k: i64| #[trigger] db.live_note(k) && db.notes[k] == n && ids@.contains(n.game_id);
                    let m = choose|m: int| 0 <= m < ids@.len() && ids@[m] == n.game_id;
                }
            }
        }
    }
}

} // verus!
