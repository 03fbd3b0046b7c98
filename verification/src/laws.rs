//! The laws the core obeys, stated over the models that the components'
//! contracts use and proved once and for all.

use vstd::prelude::*;

use crate::command::{data_of, id_of, is_delivery_for, is_update, CmdModel};
use crate::hub::OdaiChat;
use crate::session::delivered;
use crate::worker::{apply_all, response_model};

verus! {

/// Whether the command sequence holds at least one update for canvas `id`.
pub open spec fn has_update_for(s: Seq<CmdModel>, id: Seq<char>) -> bool {
    exists|k: int| 0 <= k < s.len() && is_update(s[k]) && id_of(s[k]) == id
}

/// The payload of the last update for `id` in `s`, in publish order.
pub open spec fn last_update_data(s: Seq<CmdModel>, id: Seq<char>) -> Seq<u8>
    decreases s.len(),
{
    if s.len() == 0 {
        Seq::empty()
    } else if is_update(s.last()) && id_of(s.last()) == id {
        data_of(s.last())
    } else {
        last_update_data(s.drop_last(), id)
    }
}

/// Last write wins: after any command sequence is applied, a canvas that
/// was updated at all holds exactly the payload of its last update in
/// publish order, regardless of which publisher sent which command.
pub proof fn lemma_last_write_wins(
    m: Map<Seq<char>, Seq<u8>>,
    s: Seq<CmdModel>,
    id: Seq<char>,
)
    requires
        has_update_for(s, id),
    ensures
        apply_all(m, s).contains_key(id),
        apply_all(m, s)[id] == last_update_data(s, id),
    decreases s.len(),
{
    let last = s.last();
    if is_update(last) && id_of(last) == id {
        assert(apply_all(m, s) == apply_all(m, s.drop_last()).insert(id, data_of(last)));
    } else {
        let k = choose|k: int| 0 <= k < s.len() && is_update(s[k]) && id_of(s[k]) == id;
        assert(k != s.len() - 1);
        assert(s.drop_last()[k] == s[k]);
        assert(has_update_for(s.drop_last(), id));
        lemma_last_write_wins(m, s.drop_last(), id);
        match last {
            CmdModel::Update { id: other, .. } => {
                assert(other != id);
            },
            _ => {},
        }
    }
}

/// A canvas that no command in the sequence updates stays absent from the
/// resulting store.
pub proof fn lemma_no_update_absent(
    m: Map<Seq<char>, Seq<u8>>,
    s: Seq<CmdModel>,
    id: Seq<char>,
)
    requires
        !has_update_for(s, id),
        !m.contains_key(id),
    ensures
        !apply_all(m, s).contains_key(id),
    decreases s.len(),
{
    if s.len() > 0 {
        assert forall|k: int| 0 <= k < s.drop_last().len() implies !(is_update(
            #[trigger] s.drop_last()[k],
        ) && id_of(s.drop_last()[k]) == id) by {
            assert(s.drop_last()[k] == s[k]);
        }
        lemma_no_update_absent(m, s.drop_last(), id);
        match s.last() {
            CmdModel::Update { id: other, .. } => {
                assert(s[s.len() - 1] == s.last());
                assert(other != id);
            },
            _ => {},
        }
    }
}

/// A query for a canvas for which no update has ever completed produces no
/// snapshot response.
pub proof fn lemma_unknown_canvas_unanswered(s: Seq<CmdModel>, id: Seq<char>)
    requires
        !has_update_for(s, id),
    ensures
        response_model(
            apply_all(Map::<Seq<char>, Seq<u8>>::empty(), s),
            CmdModel::Get { id },
        ) is None,
{
    lemma_no_update_absent(Map::<Seq<char>, Seq<u8>>::empty(), s, id);
}

/// A query issued after at least one completed update for a canvas is
/// answered with exactly one snapshot, carrying the most recently stored
/// payload for that canvas.
pub proof fn lemma_query_returns_last(s: Seq<CmdModel>, id: Seq<char>)
    requires
        has_update_for(s, id),
    ensures
        response_model(apply_all(Map::<Seq<char>, Seq<u8>>::empty(), s), CmdModel::Get { id })
            == Some(CmdModel::Data { id, data: last_update_data(s, id) }),
{
    lemma_last_write_wins(Map::<Seq<char>, Seq<u8>>::empty(), s, id);
}

/// The service's store always holds exactly the result of the commands its
/// worker has processed, in order: writes are serialized by construction.
pub proof fn lemma_store_tracks_processed(h: &OdaiChat)
    requires
        h.wf(),
    ensures
        h.stored() == apply_all(Map::<Seq<char>, Seq<u8>>::empty(), h.processed()),
        h.worker_pos() <= h.log().len(),
{
}

/// Completeness of delivery: every update or snapshot for a session's own
/// canvas within the log window it observes is forwarded to that session.
/// Two sessions observing the same window with the same canvas therefore
/// both receive every such command's payload.
pub proof fn lemma_delivery_complete(
    log: Seq<CmdModel>,
    from: int,
    to: int,
    id: Seq<char>,
    k: int,
)
    requires
        0 <= from <= k < to <= log.len(),
        is_delivery_for(log[k], id),
    ensures
        delivered(log, from, to, id).contains(data_of(log[k])),
{
    let win = log.subrange(from, to);
    let pred = |x: CmdModel| is_delivery_for(x, id);
    assert(win[k - from] == log[k]);
    win.lemma_filter_contains(pred, k - from);
    let f = win.filter(pred);
    let j = choose|j: int| 0 <= j < f.len() && f[j] == log[k];
    assert(delivered(log, from, to, id)[j] == data_of(log[k]));
    assert(delivered(log, from, to, id).contains(data_of(log[k])));
}

/// Isolation: a window that holds no update or snapshot for a canvas
/// forwards nothing to a session subscribed to that canvas. A session on a
/// different canvas thus never observes another canvas's traffic.
pub proof fn lemma_no_match_no_delivery(log: Seq<CmdModel>, from: int, to: int, id: Seq<char>)
    requires
        0 <= from <= to <= log.len(),
        forall|k: int| from <= k < to ==> !is_delivery_for(#[trigger] log[k], id),
    ensures
        delivered(log, from, to, id).len() == 0,
{
    let win = log.subrange(from, to);
    let pred = |x: CmdModel| is_delivery_for(x, id);
    assert forall|x: CmdModel| #[trigger] win.contains(x) implies !pred(x) by {
        let j = choose|j: int| 0 <= j < win.len() && win[j] == x;
        assert(log[from + j] == x);
    }
    assert(win.all(|x: CmdModel| !pred(x)));
    win.lemma_all_neg_filter_empty(pred);
}

/// Some update or snapshot for `id` inside the window `[from, to)`
/// carries exactly the payload `p`.
pub open spec fn stems_from_window(
    log: Seq<CmdModel>,
    from: int,
    to: int,
    id: Seq<char>,
    p: Seq<u8>,
) -> bool {
    exists|k: int|
        from <= k < to && is_delivery_for(#[trigger] log[k], id) && data_of(log[k]) == p
}

/// Soundness of delivery: every payload a session receives stems from an
/// update or snapshot for its own canvas within its window. Traffic for
/// any other canvas never leaks into a session's stream.
pub proof fn lemma_delivery_sound(log: Seq<CmdModel>, from: int, to: int, id: Seq<char>)
    requires
        0 <= from <= to <= log.len(),
    ensures
        forall|i: int|
            #![trigger delivered(log, from, to, id)[i]]
            0 <= i < delivered(log, from, to, id).len() ==> stems_from_window(
                log,
                from,
                to,
                id,
                delivered(log, from, to, id)[i],
            ),
{
    let win = log.subrange(from, to);
    let pred = |x: CmdModel| is_delivery_for(x, id);
    let f = win.filter(pred);
    assert forall|i: int|
        #![trigger delivered(log, from, to, id)[i]]
        0 <= i < delivered(log, from, to, id).len() implies stems_from_window(
        log,
        from,
        to,
        id,
        delivered(log, from, to, id)[i],
    ) by {
        win.lemma_filter_pred(pred, i);
        assert(f.contains(f[i]));
        win.lemma_filter_contains_rev(pred, f[i]);
        let j = choose|j: int| 0 <= j < win.len() && win[j] == f[i];
        assert(log[from + j] == f[i]);
        assert(delivered(log, from, to, id)[i] == data_of(f[i]));
        assert(is_delivery_for(log[from + j], id) && data_of(log[from + j]) == delivered(
            log,
            from,
            to,
            id,
        )[i]);
    }
}

/// In every reachable service state, a canvas the worker has processed at
/// least one update for holds exactly the payload of the last such update:
/// last write wins end to end, with no per-canvas locks.
pub proof fn lemma_hub_last_write_wins(h: &OdaiChat, id: Seq<char>)
    requires
        h.wf(),
        has_update_for(h.processed(), id),
    ensures
        h.stored().contains_key(id),
        h.stored()[id] == last_update_data(h.processed(), id),
{
    lemma_last_write_wins(Map::<Seq<char>, Seq<u8>>::empty(), h.processed(), id);
}

/// Self-delivery is not suppressed: an update a session itself published
/// for its own canvas comes back to that session like anyone else's.
pub proof fn lemma_self_delivery(
    log: Seq<CmdModel>,
    from: int,
    to: int,
    id: Seq<char>,
    k: int,
    data: Seq<u8>,
)
    requires
        0 <= from <= k < to <= log.len(),
        log[k] == (CmdModel::Update { id, data }),
    ensures
        delivered(log, from, to, id).contains(data),
{
    lemma_delivery_complete(log, from, to, id, k);
}

} // verus!
