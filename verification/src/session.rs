//! The per-connection session: a two-state machine (unsubscribed, or
//! subscribed to one canvas) that translates inbound transport frames into
//! bus commands, and filters bus deliveries by its current canvas before
//! forwarding payloads back out.

use vstd::prelude::*;

use crate::bus::{eff_start, Bus, Received, Subscriber};
use crate::command::{data_of, is_delivery_for, CmdModel, Command};

verus! {

/// An inbound transport frame, already framed by the transport layer.
#[derive(Debug, PartialEq)]
pub enum Inbound {
    /// The control message selecting (or switching) the session's canvas.
    SelectCanvas { canvas_id: String },
    /// An opaque raster replacement for the currently selected canvas.
    RasterFrame { png_bytes: Vec<u8> },
    /// Any other message shape: ignored without error.
    Unrecognized,
}

/// The session's subscription state: at most one canvas id, none before the
/// first select message. Changing it never unsubscribes from the bus; the
/// session keeps receiving all traffic and discards what does not match.
pub struct Session {
    canvas_id: Option<String>,
}

impl Session {
    /// The currently selected canvas, if any.
    pub closed spec fn subscription(&self) -> Option<Seq<char>> {
        match self.canvas_id {
            Some(ref id) => Some(id@),
            None => None,
        }
    }

    /// A fresh session: unsubscribed.
    pub fn new() -> (s: Session)
        ensures
            s.subscription() is None,
    {
        Session { canvas_id: None }
    }

    /// Handles one inbound frame and returns the command to publish, if
    /// any. A select message switches the subscription and asks the bus for
    /// the last durable snapshot; a raster frame becomes an update for the
    /// selected canvas and is ignored while unsubscribed; anything else is
    /// ignored.
    pub fn handle_inbound(&mut self, msg: Inbound) -> (out: Option<Command>)
        ensures
            match msg {
                Inbound::SelectCanvas { canvas_id } => {
                    &&& final(self).subscription() == Some(canvas_id@)
                    &&& out matches Some(c) && c@ == (CmdModel::Get { id: canvas_id@ })
                },
                Inbound::RasterFrame { png_bytes } => {
                    &&& final(self).subscription() == old(self).subscription()
                    &&& match old(self).subscription() {
                        Some(id) => out matches Some(c) && c@ == (CmdModel::Update {
                            id,
                            data: png_bytes@,
                        }),
                        None => out is None,
                    }
                },
                Inbound::Unrecognized => {
                    &&& final(self).subscription() == old(self).subscription()
                    &&& out is None
                },
            },
    {
        match msg {
            Inbound::SelectCanvas { canvas_id } => {
                let request = Command::GetCanvas { canvas_id: canvas_id.clone() };
                self.canvas_id = Some(canvas_id);
                Some(request)
            },
            Inbound::RasterFrame { png_bytes } => {
                match &self.canvas_id {
                    Some(id) => Some(
                        Command::UpdateCanvas { canvas_id: id.clone(), png_bytes },
                    ),
                    None => None,
                }
            },
            Inbound::Unrecognized => None,
        }
    }

    /// Filters one bus delivery: the payload to forward to the transport if
    /// the command is an update or a snapshot for the session's own canvas,
    /// nothing otherwise. The filter is purely by canvas id, so a session
    /// receives its own updates back, and query commands are never
    /// forwarded.
    pub fn handle_bus(&self, cmd: Command) -> (out: Option<Vec<u8>>)
        ensures
            match self.subscription() {
                Some(id) => {
                    &&& is_delivery_for(cmd@, id) ==> (out matches Some(p) && p@ == data_of(
                        cmd@,
                    ))
                    &&& !is_delivery_for(cmd@, id) ==> out is None
                },
                None => out is None,
            },
    {
        let my_id = match &self.canvas_id {
            Some(id) => id,
            None => { return None; },
        };
        match cmd {
            Command::UpdateCanvas { canvas_id, png_bytes } => {
                if canvas_id == *my_id {
                    Some(png_bytes)
                } else {
                    None
                }
            },
            Command::CanvasData { canvas_id, png_bytes } => {
                if canvas_id == *my_id {
                    Some(png_bytes)
                } else {
                    None
                }
            },
            Command::GetCanvas { .. } => None,
        }
    }
}

/// The payload stream a session subscribed to `id` extracts from the log
/// window `[from, to)`: the payloads of exactly the update and snapshot
/// commands for `id`, in publish order.
pub open spec fn delivered(log: Seq<CmdModel>, from: int, to: int, id: Seq<char>) -> Seq<
    Seq<u8>,
> {
    log.subrange(from, to).filter(|m: CmdModel| is_delivery_for(m, id)).map_values(
        |m: CmdModel| data_of(m),
    )
}

/// The views of a vector of forwarded payloads.
pub open spec fn payload_views(out: Seq<Vec<u8>>) -> Seq<Seq<u8>> {
    out.map_values(|p: Vec<u8>| p@)
}

/// Drains the session's bus subscription until it has caught up, forwarding
/// every matching payload: the session receives exactly the deliveries for
/// its own canvas from the window it could still observe, in publish order.
/// A skip signal is treated as non-fatal and draining continues.
pub fn drain_session(bus: &Bus, sub: &mut Subscriber, session: &Session) -> (out: Vec<
    Vec<u8>,
>)
    requires
        old(sub).pos() <= bus.log_model().len(),
    ensures
        final(sub).pos() == bus.log_model().len(),
        ({
            let n = bus.log_model().len() as int;
            let start = eff_start(old(sub).pos() as int, n, bus.cap() as int);
            match session.subscription() {
                Some(id) => payload_views(out@) == delivered(bus.log_model(), start, n, id),
                None => out@.len() == 0,
            }
        }),
{
    let ghost n = bus.log_model().len() as int;
    let ghost start = eff_start(old(sub).pos() as int, n, bus.cap() as int);
    let mut out: Vec<Vec<u8>> = Vec::new();
    proof {
        lemma_empty_window(bus.log_model(), start);
        assert(payload_views(out@) =~= Seq::<Seq<u8>>::empty());
    }
    loop
        invariant
            sub.pos() <= n,
            sub.pos() == old(sub).pos() || start <= sub.pos(),
            n == bus.log_model().len(),
            start == eff_start(old(sub).pos() as int, n, bus.cap() as int),
            ({
                let upto: int = if sub.pos() >= start {
                    sub.pos() as int
                } else {
                    start
                };
                match session.subscription() {
                    Some(id) => payload_views(out@) == delivered(bus.log_model(), start, upto, id),
                    None => out@.len() == 0,
                }
            }),
        ensures
            sub.pos() == n,
            match session.subscription() {
                Some(id) => payload_views(out@) == delivered(bus.log_model(), start, n, id),
                None => out@.len() == 0,
            },
        decreases n - sub.pos(),
    {
        let ghost pos_before: int = sub.pos() as int;
        match bus.recv(sub) {
            Received::Empty => {
                proof {
                    assert(pos_before >= n);
                }
                break;
            },
            Received::Lagged(_) => {
                proof {
                    assert(pos_before < n - bus.cap());
                    assert(sub.pos() == start);
                }
            },
            Received::Item(cmd) => {
                let ghost m = cmd@;
                let ghost out_before = out@;
                let forwarded = session.handle_bus(cmd);
                proof {
                    assert(pos_before >= start);
                    assert(m == bus.log_model()[pos_before]);
                    if let Some(id) = session.subscription() {
                        let pred = |x: CmdModel| is_delivery_for(x, id);
                        let win_old = bus.log_model().subrange(start, pos_before);
                        let win_new = bus.log_model().subrange(start, pos_before + 1);
                        assert(win_new =~= win_old.push(m));
                        win_old.lemma_filter_push(m, pred);
                        if pred(m) {
                            assert(win_new.filter(pred).map_values(|x: CmdModel| data_of(x))
                                =~= win_old.filter(pred).map_values(
                                |x: CmdModel| data_of(x),
                            ).push(data_of(m)));
                        }
                    }
                }
                match forwarded {
                    Some(p) => {
                        let ghost pv = p@;
                        out.push(p);
                        proof {
                            assert(payload_views(out@) =~= payload_views(out_before).push(pv));
                        }
                    },
                    None => {},
                }
            },
        }
    }
    out
}

/// An empty log window delivers nothing, whatever the canvas.
proof fn lemma_empty_window(log: Seq<CmdModel>, at: int)
    requires
        0 <= at <= log.len(),
    ensures
        forall|id: Seq<char>| #[trigger] delivered(log, at, at, id) == Seq::<Seq<u8>>::empty(),
{
    assert forall|id: Seq<char>| #[trigger] delivered(log, at, at, id)
        == Seq::<Seq<u8>>::empty() by {
        reveal(Seq::filter);
        let win = log.subrange(at, at);
        assert(win =~= Seq::<CmdModel>::empty());
        assert(win.filter(|m: CmdModel| is_delivery_for(m, id)).len() == 0);
        assert(delivered(log, at, at, id) =~= Seq::<Seq<u8>>::empty());
    }
}

} // verus!
