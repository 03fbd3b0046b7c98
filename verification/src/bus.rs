//! The command bus: an in-process broadcast channel. Every publish appends
//! to one global log, so all subscribers observe commands in a single total
//! order. Each subscriber owns an independent cursor into that log; a
//! subscriber that falls more than the bus capacity behind skips the stale
//! entries and is told how many it missed, instead of slowing publishers or
//! other subscribers down.

use vstd::prelude::*;

use crate::command::{Command, CmdModel};

verus! {

/// The broadcast channel. The log holds every command ever published, in
/// publish order; `capacity` bounds how far a subscriber may trail before
/// its next receive skips ahead.
pub struct Bus {
    log: Vec<Command>,
    capacity: usize,
}

/// An independent cursor into the bus log. It sees only commands published
/// after it was created.
pub struct Subscriber {
    cursor: usize,
}

/// What one receive attempt yields.
#[derive(Debug, PartialEq)]
pub enum Received {
    /// The next command in publish order.
    Item(Command),
    /// The subscriber trailed more than the capacity behind: this many
    /// commands were skipped. Non-fatal; the next receive resumes at the
    /// oldest retained position.
    Lagged(usize),
    /// Nothing published beyond this subscriber's cursor yet.
    Empty,
}

impl Subscriber {
    /// The cursor: the index into the bus log of the next command this
    /// subscriber would receive.
    pub closed spec fn pos(&self) -> nat {
        self.cursor as nat
    }
}

/// Where a subscriber at `pos` effectively resumes reading a log of length
/// `n` on a bus of capacity `cap`: at `pos` itself if it kept up, else at
/// the oldest delivery still within the capacity window.
pub open spec fn eff_start(pos: int, n: int, cap: int) -> int {
    if pos >= n - cap {
        pos
    } else {
        n - cap
    }
}

impl Bus {
    /// The published commands, in publish order.
    pub closed spec fn log_model(&self) -> Seq<CmdModel> {
        self.log@.map_values(|c: Command| c@)
    }

    /// The per-subscriber buffer bound the bus was created with.
    pub closed spec fn cap(&self) -> nat {
        self.capacity as nat
    }

    pub fn new(capacity: usize) -> (b: Bus)
        requires
            capacity >= 1,
        ensures
            b.log_model() == Seq::<CmdModel>::empty(),
            b.cap() == capacity,
    {
        let b = Bus { log: Vec::new(), capacity };
        proof {
            assert(b.log_model() =~= Seq::<CmdModel>::empty());
        }
        b
    }

    /// The capacity the bus was created with.
    pub fn capacity(&self) -> (c: usize)
        ensures
            c == self.cap(),
    {
        self.capacity
    }

    /// Appends the command to the global log. Publishing never blocks and
    /// never fails: with no live subscriber it is a silent no-op, and no
    /// subscriber's pace can stall it.
    pub fn publish(&mut self, cmd: Command)
        ensures
            final(self).log_model() == old(self).log_model().push(cmd@),
            final(self).cap() == old(self).cap(),
    {
        self.log.push(cmd);
        proof {
            assert(self.log_model() =~= old(self).log_model().push(self.log@.last()@));
        }
    }

    /// A fresh, independent cursor that sees only commands published after
    /// this call.
    pub fn subscribe(&self) -> (s: Subscriber)
        ensures
            s.pos() == self.log_model().len(),
    {
        Subscriber { cursor: self.log.len() }
    }

    /// One receive attempt for `sub`. In publish order: the next command if
    /// the subscriber is within the capacity window; a skip report if it
    /// trailed further, moving the cursor to the oldest retained command;
    /// nothing if it has caught up.
    pub fn recv(&self, sub: &mut Subscriber) -> (r: Received)
        ensures
            ({
                let n = self.log_model().len();
                let c = old(sub).pos();
                &&& (c >= n ==> r == Received::Empty && final(sub).pos() == c)
                &&& (c < n && n - c <= self.cap() ==> (r matches Received::Item(cmd)
                    && cmd@ == self.log_model()[c as int] && final(sub).pos() == c + 1))
                &&& (c < n && n - c > self.cap() ==> (r matches Received::Lagged(k)
                    && k as int == n - self.cap() - c && final(sub).pos() == n - self.cap()))
            }),
    {
        let n = self.log.len();
        if sub.cursor >= n {
            return Received::Empty;
        }
        let behind = n - sub.cursor;
        if behind > self.capacity {
            let skipped = behind - self.capacity;
            sub.cursor = n - self.capacity;
            Received::Lagged(skipped)
        } else {
            let cmd = self.log[sub.cursor].duplicate();
            sub.cursor = sub.cursor + 1;
            Received::Item(cmd)
        }
    }
}

} // verus!
