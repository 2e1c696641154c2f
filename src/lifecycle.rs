//! Laws of the session lifecycle, stated over the table model of
//! [`crate::session`] and proved from the operations' contracts.
use vstd::prelude::*;
use crate::session::{
    after_create, after_kill, after_resize, after_write, create_result, gate, kill_result,
    pump_outcome, Geometry, PumpAction, PumpInput, SessionError, SessionStatus, TerminalEvent,
    TerminalSession,
};

verus! {

/// The table after `create_session` is called once for each spawn outcome, in order.
pub open spec fn create_all(
    m: Map<u32, TerminalSession>,
    outcomes: Seq<Result<u32, String>>,
    geometry: Geometry,
) -> Map<u32, TerminalSession>
    decreases outcomes.len(),
{
    if outcomes.len() == 0 {
        m
    } else {
        create_all(after_create(m, outcomes[0], geometry), outcomes.drop_first(), geometry)
    }
}

/// The identifiers that those calls return, in order.
pub open spec fn created_ids(
    m: Map<u32, TerminalSession>,
    outcomes: Seq<Result<u32, String>>,
    geometry: Geometry,
) -> Seq<u32>
    decreases outcomes.len(),
{
    if outcomes.len() == 0 {
        Seq::empty()
    } else {
        let head = match create_result(m, outcomes[0]) {
            Ok(id) => seq![id],
            Err(_) => Seq::empty(),
        };
        head + created_ids(after_create(m, outcomes[0], geometry), outcomes.drop_first(), geometry)
    }
}

/// The table after `kill` is called once for each identifier, in order.
pub open spec fn kill_all(m: Map<u32, TerminalSession>, ids: Seq<u32>) -> Map<u32, TerminalSession>
    decreases ids.len(),
{
    if ids.len() == 0 {
        m
    } else {
        kill_all(after_kill(m, ids[0]), ids.drop_first())
    }
}

/// What those `kill` calls return, in order.
pub open spec fn kill_results(m: Map<u32, TerminalSession>, ids: Seq<u32>) -> Seq<
    Result<Option<TerminalEvent>, SessionError>,
>
    decreases ids.len(),
{
    if ids.len() == 0 {
        Seq::empty()
    } else {
        seq![kill_result(m, ids[0])] + kill_results(after_kill(m, ids[0]), ids.drop_first())
    }
}

/// Every identifier returned by a run of `create_session` calls is new: it
/// names no session that was in the table before, no two calls return the
/// same one, and each names a running session afterwards. The sessions that
/// were there stay as they were, and no other session appears.
pub proof fn lemma_created_ids_unique(
    m: Map<u32, TerminalSession>,
    outcomes: Seq<Result<u32, String>>,
    geometry: Geometry,
)
    ensures
        created_ids(m, outcomes, geometry).no_duplicates(),
        forall|i: int|
            #![trigger created_ids(m, outcomes, geometry)[i]]
            0 <= i < created_ids(m, outcomes, geometry).len() ==> {
                let id = created_ids(m, outcomes, geometry)[i];
                &&& !m.contains_key(id)
                &&& create_all(m, outcomes, geometry).contains_key(id)
                &&& create_all(m, outcomes, geometry)[id].status == SessionStatus::Running
            },
        forall|k: u32|
            m.contains_key(k) ==> #[trigger] create_all(m, outcomes, geometry).contains_key(k)
                && create_all(m, outcomes, geometry)[k] == m[k],
        forall|k: u32|
            #[trigger] create_all(m, outcomes, geometry).contains_key(k) ==> m.contains_key(k)
                || created_ids(m, outcomes, geometry).contains(k),
    decreases outcomes.len(),
{
    if outcomes.len() > 0 {
        let m1 = after_create(m, outcomes[0], geometry);
        let rest = outcomes.drop_first();
        lemma_created_ids_unique(m1, rest, geometry);
        let tail = created_ids(m1, rest, geometry);
        let all = created_ids(m, outcomes, geometry);
        let f = create_all(m, outcomes, geometry);
        assert(f == create_all(m1, rest, geometry));
        match create_result(m, outcomes[0]) {
            Ok(id) => {
                assert(all == seq![id] + tail);
                assert(m1.contains_key(id));
                assert forall|i: int| 0 <= i < all.len() implies {
                    &&& !m.contains_key(#[trigger] all[i])
                    &&& f.contains_key(all[i])
                    &&& f[all[i]].status == SessionStatus::Running
                } by {
                    if i > 0 {
                        assert(all[i] == tail[i - 1]);
                        assert(!m1.contains_key(tail[i - 1]));
                    } else {
                        assert(all[0] == id);
                        assert(create_all(m1, rest, geometry).contains_key(id));
                        assert(f.contains_key(id) && f[id] == m1[id]);
                    }
                }
                assert forall|i: int, j: int|
                    0 <= i < all.len() && 0 <= j < all.len() && i != j implies all[i]
                    != all[j] by {
                    if i > 0 {
                        assert(all[i] == tail[i - 1]);
                    }
                    if j > 0 {
                        assert(all[j] == tail[j - 1]);
                    }
                }
                assert forall|k: u32| #[trigger] f.contains_key(k) implies m.contains_key(k)
                    || all.contains(k) by {
                    if !m1.contains_key(k) {
                        let i = choose|i: int| 0 <= i < tail.len() && tail[i] == k;
                        assert(all[i + 1] == k);
                    } else if k == id {
                        assert(all[0] == k);
                    }
                }
            },
            Err(_) => {
                assert(all == tail);
            },
        }
    }
}

/// Bytes written to a running session in two calls, with no kill between,
/// reach its input as the first payload followed by the second.
pub proof fn lemma_writes_in_order(m: Map<u32, TerminalSession>, id: u32, b1: Seq<u8>, b2: Seq<u8>)
    requires
        m.contains_key(id),
        m[id].status == SessionStatus::Running,
    ensures
        gate(m, id) is Ok,
        gate(after_write(m, id, b1), id) is Ok,
        after_write(after_write(m, id, b1), id, b2)[id].sent@ == m[id].sent@ + (b1 + b2),
{
    assert(m[id].sent@ + b1 + b2 == m[id].sent@ + (b1 + b2));
}

/// A resize of a running session is accepted and its geometry is the one
/// asked for, whatever it was before.
pub proof fn lemma_resize_recorded(m: Map<u32, TerminalSession>, id: u32, rows: u16, cols: u16)
    requires
        m.contains_key(id),
        m[id].status == SessionStatus::Running,
    ensures
        gate(m, id) is Ok,
        after_resize(m, id, rows, cols)[id].geometry == (Geometry { rows, cols }),
        after_resize(m, id, rows, cols)[id].status == SessionStatus::Running,
{
}

/// Right after `kill(id)`, whether or not it found the session, both `write`
/// and `resize` on `id` fail with `NotFound`.
pub proof fn lemma_killed_is_gone(m: Map<u32, TerminalSession>, id: u32)
    ensures
        gate(after_kill(m, id), id) == Err::<(), SessionError>(SessionError::NotFound),
        kill_result(after_kill(m, id), id) == Err::<Option<TerminalEvent>, SessionError>(
            SessionError::NotFound,
        ),
{
}

/// When the output of a running session closes, the pump stops with one
/// `Ended` event; no later pump step for that id yields another, and later
/// writes and resizes fail with `SessionClosed` (or `NotFound` once it is
/// removed).
pub proof fn lemma_exit_ends_once(
    m: Map<u32, TerminalSession>,
    id: u32,
    m2: Map<u32, TerminalSession>,
    r1: PumpAction,
    later: PumpInput,
    m3: Map<u32, TerminalSession>,
    r2: PumpAction,
)
    requires
        m.contains_key(id),
        m[id].status == SessionStatus::Running,
        pump_outcome(m, id, PumpInput::Closed, m2, r1),
        pump_outcome(m2, id, later, m3, r2),
    ensures
        r1.event == Some(TerminalEvent::Ended { id }),
        !r1.keep_running,
        r2.event != Some(TerminalEvent::Ended { id }),
        gate(m2, id) == Err::<(), SessionError>(SessionError::SessionClosed),
        gate(m3, id) == Err::<(), SessionError>(SessionError::SessionClosed),
        kill_result(m2, id) == Ok::<Option<TerminalEvent>, SessionError>(None),
        gate(after_kill(m2, id), id) == Err::<(), SessionError>(SessionError::NotFound),
{
}

/// Killing, one after another, a run of distinct running sessions yields one
/// `Killed` event for each, and removes exactly those sessions.
pub proof fn lemma_kill_all(m: Map<u32, TerminalSession>, ids: Seq<u32>)
    requires
        ids.no_duplicates(),
        forall|i: int|
            0 <= i < ids.len() ==> m.contains_key(#[trigger] ids[i]) && m[ids[i]].status
                == SessionStatus::Running,
    ensures
        kill_results(m, ids).len() == ids.len(),
        forall|i: int|
            0 <= i < ids.len() ==> #[trigger] kill_results(m, ids)[i] == Ok::<
                Option<TerminalEvent>,
                SessionError,
            >(Some(TerminalEvent::Killed { id: ids[i] })),
        kill_all(m, ids) == m.remove_keys(ids.to_set()),
    decreases ids.len(),
{
    if ids.len() == 0 {
        assert(m.remove_keys(ids.to_set()) =~= m);
    } else {
        let m1 = after_kill(m, ids[0]);
        let rest = ids.drop_first();
        assert forall|i: int| 0 <= i < rest.len() implies m1.contains_key(#[trigger] rest[i])
            && m1[rest[i]].status == SessionStatus::Running by {
            assert(rest[i] == ids[i + 1]);
        }
        lemma_kill_all(m1, rest);
        let rs = kill_results(m, ids);
        assert(rs == seq![kill_result(m, ids[0])] + kill_results(m1, rest));
        assert forall|i: int| 0 <= i < ids.len() implies #[trigger] rs[i] == Ok::<
            Option<TerminalEvent>,
            SessionError,
        >(Some(TerminalEvent::Killed { id: ids[i] })) by {
            if i > 0 {
                assert(rs[i] == kill_results(m1, rest)[i - 1]);
                assert(ids[i] == rest[i - 1]);
            }
        }
        assert(ids.to_set() =~= rest.to_set().insert(ids[0])) by {
            assert forall|x: u32| ids.to_set().contains(x) implies rest.to_set().insert(
                ids[0],
            ).contains(x) by {
                let i = choose|i: int| 0 <= i < ids.len() && ids[i] == x;
                if i > 0 {
                    assert(rest[i - 1] == x);
                }
            }
            assert forall|x: u32| rest.to_set().contains(x) implies ids.to_set().contains(x) by {
                let i = choose|i: int| 0 <= i < rest.len() && rest[i] == x;
                assert(ids[i + 1] == x);
            }
        }
        assert(kill_all(m, ids) == kill_all(m1, rest));
        assert(m1.remove_keys(rest.to_set()) =~= m.remove_keys(ids.to_set()));
    }
}

/// Creating sessions in an empty table, then killing every one of them,
/// yields as many distinct identifiers as successful spawns, one `Killed`
/// event per session, and an empty table.
pub proof fn lemma_create_then_kill_all(outcomes: Seq<Result<u32, String>>, geometry: Geometry)
    requires
        forall|i: int| 0 <= i < outcomes.len() ==> #[trigger] outcomes[i] is Ok,
        forall|i: int, j: int|
            0 <= i < outcomes.len() && 0 <= j < outcomes.len() && i != j ==> outcomes[i]
                != outcomes[j],
    ensures
        ({
            let m0 = Map::<u32, TerminalSession>::empty();
            let ids = created_ids(m0, outcomes, geometry);
            let full = create_all(m0, outcomes, geometry);
            &&& ids.len() == outcomes.len()
            &&& ids.no_duplicates()
            &&& full.len() == ids.len()
            &&& kill_results(full, ids).len() == ids.len()
            &&& forall|i: int|
                0 <= i < ids.len() ==> #[trigger] kill_results(full, ids)[i] == Ok::<
                    Option<TerminalEvent>,
                    SessionError,
                >(Some(TerminalEvent::Killed { id: ids[i] }))
            &&& kill_all(full, ids) == Map::<u32, TerminalSession>::empty()
        }),
{
    let m0 = Map::<u32, TerminalSession>::empty();
    lemma_created_ids_unique(m0, outcomes, geometry);
    lemma_all_spawns_register(m0, outcomes, geometry);
    let ids = created_ids(m0, outcomes, geometry);
    let full = create_all(m0, outcomes, geometry);
    lemma_kill_all(full, ids);
    assert(full.dom() =~= ids.to_set());
    ids.unique_seq_to_set();
    assert(full.remove_keys(ids.to_set()) =~= Map::<u32, TerminalSession>::empty());
}

/// When every spawn succeeds with a distinct identifier that the table does
/// not hold, every call registers a session.
proof fn lemma_all_spawns_register(
    m: Map<u32, TerminalSession>,
    outcomes: Seq<Result<u32, String>>,
    geometry: Geometry,
)
    requires
        forall|i: int| 0 <= i < outcomes.len() ==> #[trigger] outcomes[i] is Ok,
        forall|i: int|
            0 <= i < outcomes.len() ==> !m.contains_key(#[trigger] outcomes[i]->Ok_0),
        forall|i: int, j: int|
            0 <= i < outcomes.len() && 0 <= j < outcomes.len() && i != j ==> outcomes[i]
                != outcomes[j],
    ensures
        created_ids(m, outcomes, geometry).len() == outcomes.len(),
    decreases outcomes.len(),
{
    if outcomes.len() > 0 {
        let id = outcomes[0]->Ok_0;
        let m1 = after_create(m, outcomes[0], geometry);
        let rest = outcomes.drop_first();
        assert forall|i: int| 0 <= i < rest.len() implies !m1.contains_key(
            #[trigger] rest[i]->Ok_0,
        ) by {
            assert(rest[i] == outcomes[i + 1]);
            assert(outcomes[i + 1] is Ok);
            assert(outcomes[i + 1] != outcomes[0]);
        }
        assert forall|i: int| 0 <= i < rest.len() implies #[trigger] rest[i] is Ok by {
            assert(rest[i] == outcomes[i + 1]);
        }
        assert forall|i: int, j: int|
            0 <= i < rest.len() && 0 <= j < rest.len() && i != j implies rest[i] != rest[j] by {
            assert(rest[i] == outcomes[i + 1]);
            assert(rest[j] == outcomes[j + 1]);
        }
        lemma_all_spawns_register(m1, rest, geometry);
    }
}

} // verus!
