//! The process-wide canvas service: one bus, one store, and the single
//! persistence worker's subscription, constructed once at startup and
//! handed to every session. Sessions publish commands and hold their own
//! subscriptions; the worker's pending commands are processed one at a
//! time, strictly in publish order.

use vstd::prelude::*;

use crate::bus::{Bus, Received, Subscriber};
use crate::command::{data_of, id_of, is_update, CmdModel, Command};
use crate::store::CanvasStore;
use crate::worker::{apply_all, apply_model, response_model, worker_step};

verus! {

/// The outcome of giving the worker one turn.
#[derive(Debug, PartialEq)]
pub enum WorkerTick {
    /// The worker has caught up with the bus; nothing was pending.
    Idle,
    /// The worker trailed more than the bus capacity behind and skipped
    /// this many commands; their effects are lost, which a later update
    /// for the same canvas naturally supersedes.
    Skipped { missed: usize },
    /// One command was processed. `write` carries the key and payload to
    /// mirror into the durable medium when the command was an update.
    Handled { write: Option<(String, Vec<u8>)> },
}

/// The canvas service: bus, store and worker cursor in one place.
pub struct OdaiChat {
    bus: Bus,
    store: CanvasStore,
    worker_sub: Subscriber,
    processed: Ghost<Seq<CmdModel>>,
}

impl OdaiChat {
    /// Every command published so far, in publish order.
    pub closed spec fn log(&self) -> Seq<CmdModel> {
        self.bus.log_model()
    }

    /// The bus capacity.
    pub closed spec fn cap(&self) -> nat {
        self.bus.cap()
    }

    /// The worker's cursor into the log.
    pub closed spec fn worker_pos(&self) -> nat {
        self.worker_sub.pos()
    }

    /// The store's contents.
    pub closed spec fn stored(&self) -> Map<Seq<char>, Seq<u8>> {
        self.store@
    }

    /// The commands the worker has actually processed, in order.
    pub closed spec fn processed(&self) -> Seq<CmdModel> {
        self.processed@
    }

    /// Well-formedness: the worker never points past the log, and the
    /// store holds exactly the result of the commands the worker has
    /// processed.
    pub open spec fn wf(&self) -> bool {
        &&& self.worker_pos() <= self.log().len()
        &&& self.stored() == apply_all(Map::<Seq<char>, Seq<u8>>::empty(), self.processed())
    }

    /// A fresh service: empty log, empty store, worker subscribed from the
    /// start so it misses nothing.
    pub fn open(capacity: usize) -> (h: OdaiChat)
        requires
            capacity >= 1,
        ensures
            h.wf(),
            h.log() == Seq::<CmdModel>::empty(),
            h.stored() == Map::<Seq<char>, Seq<u8>>::empty(),
            h.worker_pos() == 0,
            h.processed() == Seq::<CmdModel>::empty(),
            h.cap() == capacity,
    {
        let bus = Bus::new(capacity);
        let worker_sub = bus.subscribe();
        OdaiChat {
            bus,
            store: CanvasStore::new(),
            worker_sub,
            processed: Ghost(Seq::empty()),
        }
    }

    /// Publishes a command. Never blocks and never fails; with no live
    /// subscriber the command is simply never received.
    pub fn send_command(&mut self, cmd: Command)
        requires
            old(self).wf(),
        ensures
            final(self).wf(),
            final(self).log() == old(self).log().push(cmd@),
            final(self).stored() == old(self).stored(),
            final(self).processed() == old(self).processed(),
            final(self).worker_pos() == old(self).worker_pos(),
            final(self).cap() == old(self).cap(),
    {
        self.bus.publish(cmd);
    }

    /// A fresh, independent subscription that sees only commands published
    /// after this call.
    pub fn get_command_receiver(&self) -> (s: Subscriber)
        ensures
            s.pos() == self.log().len(),
    {
        self.bus.subscribe()
    }

    /// Publishes a query for the last durable snapshot of `canvas_id`.
    pub fn send_data_request(&mut self, canvas_id: &String)
        requires
            old(self).wf(),
        ensures
            final(self).wf(),
            final(self).log() == old(self).log().push(CmdModel::Get { id: canvas_id@ }),
            final(self).stored() == old(self).stored(),
            final(self).processed() == old(self).processed(),
            final(self).worker_pos() == old(self).worker_pos(),
            final(self).cap() == old(self).cap(),
    {
        self.bus.publish(Command::GetCanvas { canvas_id: canvas_id.clone() });
    }

    /// One receive attempt on a session's subscription.
    pub fn recv_command(&self, sub: &mut Subscriber) -> (r: Received)
        ensures
            ({
                let n = self.log().len();
                let c = old(sub).pos();
                &&& (c >= n ==> r == Received::Empty && final(sub).pos() == c)
                &&& (c < n && n - c <= self.cap() ==> (r matches Received::Item(cmd)
                    && cmd@ == self.log()[c as int] && final(sub).pos() == c + 1))
                &&& (c < n && n - c > self.cap() ==> (r matches Received::Lagged(k)
                    && k as int == n - self.cap() - c && final(sub).pos() == n - self.cap()))
            }),
    {
        self.bus.recv(sub)
    }

    /// The store's current payload for a canvas; the store tolerates being
    /// inspected while the worker owns all mutation.
    pub fn stored_snapshot(&self, canvas_id: &String) -> (r: Option<Vec<u8>>)
        ensures
            match r {
                Some(p) => self.stored().contains_key(canvas_id@)
                    && p@ == self.stored()[canvas_id@],
                None => !self.stored().contains_key(canvas_id@),
            },
    {
        self.store.get(canvas_id)
    }

    /// Gives the worker one turn: it receives at most one pending command,
    /// applies an update to the store, answers a known-canvas query by
    /// publishing a snapshot back onto the same bus, and ignores anything
    /// else. A skip signal is non-fatal: the worker resumes at the oldest
    /// retained command.
    pub fn run_worker_once(&mut self) -> (t: WorkerTick)
        requires
            old(self).wf(),
        ensures
            final(self).wf(),
            final(self).cap() == old(self).cap(),
            ({
                let n = old(self).log().len();
                let c = old(self).worker_pos();
                let m = old(self).stored();
                &&& (c >= n ==> {
                    &&& t == WorkerTick::Idle
                    &&& final(self).log() == old(self).log()
                    &&& final(self).stored() == m
                    &&& final(self).processed() == old(self).processed()
                    &&& final(self).worker_pos() == c
                })
                &&& (c < n && n - c > old(self).cap() ==> {
                    &&& t matches WorkerTick::Skipped { missed }
                        && missed as int == n - old(self).cap() - c
                    &&& final(self).worker_pos() == n - old(self).cap()
                    &&& final(self).log() == old(self).log()
                    &&& final(self).stored() == m
                    &&& final(self).processed() == old(self).processed()
                })
                &&& (c < n && n - c <= old(self).cap() ==> {
                    let cm = old(self).log()[c as int];
                    &&& final(self).worker_pos() == c + 1
                    &&& final(self).processed() == old(self).processed().push(cm)
                    &&& final(self).stored() == apply_model(m, cm)
                    &&& match response_model(m, cm) {
                        Some(d) => final(self).log() == old(self).log().push(d),
                        None => final(self).log() == old(self).log(),
                    }
                    &&& t matches WorkerTick::Handled { write }
                        && (is_update(cm) ==> (write matches Some(w)
                            && w.0@ == id_of(cm) && w.1@ == data_of(cm)))
                        && (!is_update(cm) ==> write is None)
                })
            }),
    {
        match self.bus.recv(&mut self.worker_sub) {
            Received::Empty => WorkerTick::Idle,
            Received::Lagged(missed) => WorkerTick::Skipped { missed },
            Received::Item(cmd) => {
                let ghost cm = cmd@;
                let ghost ps = self.processed@;
                let out = worker_step(&mut self.store, cmd);
                proof {
                    self.processed@ = ps.push(cm);
                    assert(ps.push(cm).drop_last() =~= ps);
                    assert(apply_all(Map::<Seq<char>, Seq<u8>>::empty(), ps.push(cm))
                        == apply_model(apply_all(Map::<Seq<char>, Seq<u8>>::empty(), ps), cm));
                }
                match out.respond {
                    Some(resp) => {
                        self.bus.publish(resp);
                    },
                    None => {},
                }
                WorkerTick::Handled { write: out.write }
            },
        }
    }
}

} // verus!
