//! The persistence worker's decision logic: one command in, one store
//! transition and at most one response out. The worker is the single
//! sequential consumer that owns the store, which makes writes to the same
//! canvas trivially ordered.

use vstd::prelude::*;

use crate::command::{data_of, id_of, is_update, CmdModel, Command, clone_bytes};
use crate::store::CanvasStore;

verus! {

/// How one command changes the store: an update replaces the payload under
/// its canvas id; every other command leaves the store alone.
pub open spec fn apply_model(m: Map<Seq<char>, Seq<u8>>, c: CmdModel) -> Map<
    Seq<char>,
    Seq<u8>,
> {
    match c {
        CmdModel::Update { id, data } => m.insert(id, data),
        _ => m,
    }
}

/// The store that results from applying a whole command sequence in
/// publish order, starting from `m`.
pub open spec fn apply_all(m: Map<Seq<char>, Seq<u8>>, s: Seq<CmdModel>) -> Map<
    Seq<char>,
    Seq<u8>,
>
    decreases s.len(),
{
    if s.len() == 0 {
        m
    } else {
        apply_model(apply_all(m, s.drop_last()), s.last())
    }
}

/// What the worker publishes back for one command: a snapshot announcement
/// for a query whose canvas is present in the store, and nothing otherwise.
/// A query for a canvas never written is silently unanswered.
pub open spec fn response_model(m: Map<Seq<char>, Seq<u8>>, c: CmdModel) -> Option<
    CmdModel,
> {
    match c {
        CmdModel::Get { id } => if m.contains_key(id) {
            Some(CmdModel::Data { id, data: m[id] })
        } else {
            None
        },
        _ => None,
    }
}

/// What one worker step hands back to its surroundings.
pub struct WorkerOutput {
    /// The key and payload to mirror into the durable medium, for an update
    /// command; the caller logs and drops a failed mirror write and carries
    /// on, so one failure never corrupts the stream.
    pub write: Option<(String, Vec<u8>)>,
    /// The snapshot announcement to publish back onto the bus, for a query
    /// whose canvas is known.
    pub respond: Option<Command>,
}

/// Processes exactly one command against the store: applies an update,
/// answers a query from the store, ignores anything else.
pub fn worker_step(store: &mut CanvasStore, cmd: Command) -> (out: WorkerOutput)
    ensures
        final(store)@ == apply_model(old(store)@, cmd@),
        match response_model(old(store)@, cmd@) {
            Some(d) => out.respond matches Some(c) && c@ == d,
            None => out.respond is None,
        },
        is_update(cmd@) ==> (out.write matches Some(w) && w.0@ == id_of(cmd@) && w.1@
            == data_of(cmd@)),
        !is_update(cmd@) ==> out.write is None,
{
    match cmd {
        Command::UpdateCanvas { canvas_id, png_bytes } => {
            store.put(canvas_id.clone(), clone_bytes(&png_bytes));
            WorkerOutput { write: Some((canvas_id, png_bytes)), respond: None }
        },
        Command::GetCanvas { canvas_id } => {
            match store.get(&canvas_id) {
                Some(png_bytes) => WorkerOutput {
                    write: None,
                    respond: Some(Command::CanvasData { canvas_id, png_bytes }),
                },
                None => WorkerOutput { write: None, respond: None },
            }
        },
        Command::CanvasData { .. } => WorkerOutput { write: None, respond: None },
    }
}

} // verus!
