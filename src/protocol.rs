//! The passivate/activate handshake of the producer and the consumer, each a
//! state machine that the scheduler resumes once per event.
use vstd::prelude::*;

use crate::cell::Exchange;
use crate::state::{lookup, State, StateKey};

verus! {

/// Units the producer adds per production.
pub const PRODUCE_AMOUNT: u64 = 1;

/// The producer works only while the count is below this.
pub const THRESHOLD: u64 = 15;

/// Time units the producer holds after producing.
pub const PRODUCE_INTERVAL: u64 = 1;

/// Units the consumer takes per consumption; also the least count it needs.
pub const CONSUME_AMOUNT: u64 = 8;

/// Time units the consumer holds after consuming.
pub const CONSUME_INTERVAL: u64 = 8;

/// The passivation state of one side.
#[derive(PartialEq, Eq, Structural, Clone, Copy, Debug)]
pub enum Passivated {
    /// Suspended, expecting a wake event.
    True,
    /// Active.
    False,
    /// A wake event has already been issued to this side.
    Warned,
}

/// The two sides of the handshake.
#[derive(PartialEq, Eq, Structural, Clone, Copy, Debug)]
pub enum Role {
    Producer,
    Consumer,
}

/// What a process asks of the scheduler when it suspends.
#[derive(PartialEq, Eq, Structural, Clone, Copy, Debug)]
pub enum Action {
    /// Resume this process after the given number of time units.
    TimeOut(u64),
    /// Resume the given process now; this one waits until it is resumed.
    Activate(usize),
    /// Suspend until another process activates this one.
    Wait,
}

/// Where a process stands between two resumptions.
#[derive(PartialEq, Eq, Structural, Clone, Copy, Debug)]
pub enum Phase {
    /// Not resumed yet: it must still read its peer's process identifier.
    Start,
    /// At the top of its loop.
    Looping,
    /// Suspended right after waking its peer in the handshake.
    Woken,
}

/// A value of the shared store in this scenario.
#[derive(PartialEq, Eq, Structural, Clone, Copy, Debug)]
pub enum Slot {
    /// Produced units not yet consumed.
    Count(u64),
    /// A process identifier, once it is known.
    Process(Option<usize>),
    /// The passivation states of the producer and of the consumer.
    Flags(Passivated, Passivated),
}

/// The handles of the scenario's slots.
#[derive(Clone, Copy)]
pub struct Keys {
    pub count: StateKey<Slot>,
    pub producer: StateKey<Slot>,
    pub consumer: StateKey<Slot>,
    pub passivated: StateKey<Slot>,
}

/// What one resumption leaves behind: the next phase, the count, the flags of
/// the resumed side and of its peer, and the request to the scheduler.
pub struct Outcome {
    pub phase: Phase,
    pub count: u64,
    pub own: Passivated,
    pub peer: Passivated,
    pub action: Action,
}

/// The count, if `key`'s slot holds one.
pub open spec fn count_in(slots: Seq<Option<Slot>>, key: StateKey<Slot>) -> Option<u64> {
    match lookup(slots, key.index) {
        Some(Slot::Count(c)) => Some(c),
        _ => None,
    }
}

/// The flags of producer and consumer, if `key`'s slot holds them.
pub open spec fn flags_in(slots: Seq<Option<Slot>>, key: StateKey<Slot>) -> Option<(Passivated, Passivated)> {
    match lookup(slots, key.index) {
        Some(Slot::Flags(p, c)) => Some((p, c)),
        _ => None,
    }
}

/// The process identifier that `key`'s slot holds, if it holds one.
pub open spec fn process_in(slots: Seq<Option<Slot>>, key: StateKey<Slot>) -> Option<usize> {
    match lookup(slots, key.index) {
        Some(Slot::Process(Some(id))) => Some(id),
        _ => None,
    }
}

/// The flag of `role` within the pair (producer, consumer).
pub open spec fn flag_of(role: Role, flags: (Passivated, Passivated)) -> Passivated {
    match role {
        Role::Producer => flags.0,
        Role::Consumer => flags.1,
    }
}

/// The other side.
pub open spec fn peer_of(role: Role) -> Role {
    match role {
        Role::Producer => Role::Consumer,
        Role::Consumer => Role::Producer,
    }
}

/// The pair of flags with `own` for `role` and `peer` for the other side.
pub open spec fn pair_for(role: Role, own: Passivated, peer: Passivated) -> (Passivated, Passivated) {
    match role {
        Role::Producer => (own, peer),
        Role::Consumer => (peer, own),
    }
}

/// Whether `role` can do its work on `count`.
pub open spec fn can_work(role: Role, count: u64) -> bool {
    match role {
        Role::Producer => count < THRESHOLD,
        Role::Consumer => count >= CONSUME_AMOUNT,
    }
}

/// The count after `role` has done its work once.
pub open spec fn worked(role: Role, count: u64) -> u64 {
    match role {
        Role::Producer => (count + PRODUCE_AMOUNT) as u64,
        Role::Consumer => (count - CONSUME_AMOUNT) as u64,
    }
}

/// The hold after `role` has done its work.
pub open spec fn interval_of(role: Role) -> u64 {
    match role {
        Role::Producer => PRODUCE_INTERVAL,
        Role::Consumer => CONSUME_INTERVAL,
    }
}

/// The work step, entered with the own flag cleared: work and hold, or else
/// passivate, waking the peer at once if it is passivated too.
pub open spec fn work_step(role: Role, count: u64, peer: Passivated, peer_id: usize) -> Outcome {
    if can_work(role, count) {
        Outcome {
            phase: Phase::Looping,
            count: worked(role, count),
            own: Passivated::False,
            peer,
            action: Action::TimeOut(interval_of(role)),
        }
    } else {
        Outcome {
            phase: Phase::Looping,
            count,
            own: Passivated::True,
            peer,
            action: if peer == Passivated::True {
                Action::Activate(peer_id)
            } else {
                Action::Wait
            },
        }
    }
}

/// One resumption of `role` in `phase`, given the count, the peer's flag and
/// the peer's process identifier.
pub open spec fn transition(role: Role, phase: Phase, count: u64, peer: Passivated, peer_id: usize) -> Outcome {
    match phase {
        Phase::Woken => work_step(role, count, peer, peer_id),
        _ => if peer == Passivated::True {
            Outcome {
                phase: Phase::Woken,
                count,
                own: Passivated::True,
                peer: Passivated::Warned,
                action: Action::Activate(peer_id),
            }
        } else {
            work_step(role, count, peer, peer_id)
        },
    }
}

/// The exec form of [`transition`].
pub fn step(role: Role, phase: Phase, count: u64, peer: Passivated, peer_id: usize) -> (r: Outcome)
    ensures
        r == transition(role, phase, count, peer, peer_id),
{
    if phase != Phase::Woken && peer == Passivated::True {
        return Outcome {
            phase: Phase::Woken,
            count,
            own: Passivated::True,
            peer: Passivated::Warned,
            action: Action::Activate(peer_id),
        };
    }
    let works = match role {
        Role::Producer => count < THRESHOLD,
        Role::Consumer => count >= CONSUME_AMOUNT,
    };
    if works {
        let (next, interval) = match role {
            Role::Producer => (count + PRODUCE_AMOUNT, PRODUCE_INTERVAL),
            Role::Consumer => (count - CONSUME_AMOUNT, CONSUME_INTERVAL),
        };
        Outcome {
            phase: Phase::Looping,
            count: next,
            own: Passivated::False,
            peer,
            action: Action::TimeOut(interval),
        }
    } else {
        Outcome {
            phase: Phase::Looping,
            count,
            own: Passivated::True,
            peer,
            action: if peer == Passivated::True {
                Action::Activate(peer_id)
            } else {
                Action::Wait
            },
        }
    }
}

impl Keys {
    /// The slot that holds the peer's process identifier for `role`.
    pub open spec fn peer_key(&self, role: Role) -> StateKey<Slot> {
        match role {
            Role::Producer => self.consumer,
            Role::Consumer => self.producer,
        }
    }

    /// The slots are distinct, and the count and the flags are in place.
    pub open spec fn wf(&self, slots: Seq<Option<Slot>>) -> bool {
        &&& self.count.index != self.producer.index
        &&& self.count.index != self.consumer.index
        &&& self.count.index != self.passivated.index
        &&& self.producer.index != self.consumer.index
        &&& self.producer.index != self.passivated.index
        &&& self.consumer.index != self.passivated.index
        &&& count_in(slots, self.count) is Some
        &&& flags_in(slots, self.passivated) is Some
    }

    fn peer_slot(&self, role: Role) -> (r: StateKey<Slot>)
        ensures
            r == self.peer_key(role),
    {
        match role {
            Role::Producer => self.consumer,
            Role::Consumer => self.producer,
        }
    }
}

/// What the cell holds, as slots; nothing while it is checked out.
pub open spec fn slots_of(cell: Exchange<State<Slot>>) -> Seq<Option<Slot>> {
    match cell@ {
        Some(state) => state@,
        None => Seq::empty(),
    }
}

/// One of the two processes of the scenario.
pub struct Process {
    pub role: Role,
    pub phase: Phase,
    /// The peer's process identifier, once read from the store.
    pub peer: Option<usize>,
}

impl Process {
    /// A process of `role` that has not run yet.
    pub fn new(role: Role) -> (r: Process)
        ensures
            r.role == role,
            r.phase == Phase::Start,
            r.peer is None,
    {
        Process { role, phase: Phase::Start, peer: None }
    }

    /// The process can be resumed on `slots`: before its first run the
    /// peer's identifier waits in the store, afterwards the process has it.
    pub open spec fn ready(&self, slots: Seq<Option<Slot>>, keys: Keys) -> bool {
        if self.phase == Phase::Start {
            process_in(slots, keys.peer_key(self.role)) is Some
        } else {
            self.peer is Some
        }
    }

    /// The peer's process identifier, from the store before the first run.
    pub open spec fn peer_id(&self, slots: Seq<Option<Slot>>, keys: Keys) -> usize {
        if self.phase == Phase::Start {
            process_in(slots, keys.peer_key(self.role)).unwrap()
        } else {
            self.peer.unwrap()
        }
    }

    /// What resuming the process on `slots` does.
    pub open spec fn outcome(&self, slots: Seq<Option<Slot>>, keys: Keys) -> Outcome {
        transition(
            self.role,
            self.phase,
            count_in(slots, keys.count).unwrap(),
            flag_of(peer_of(self.role), flags_in(slots, keys.passivated).unwrap()),
            self.peer_id(slots, keys),
        )
    }

    /// Resumes the process: checks the store out of `cell`, runs until the
    /// next suspension point, hands the store back and returns the request
    /// to the scheduler.
    pub fn resume(&mut self, cell: &mut Exchange<State<Slot>>, keys: &Keys) -> (r: Action)
        requires
            old(cell)@ is Some,
            keys.wf(slots_of(*old(cell))),
            old(self).ready(slots_of(*old(cell)), *keys),
        ensures
            final(cell)@ is Some,
            ({
                let before = slots_of(*old(cell));
                let after = slots_of(*final(cell));
                let o = old(self).outcome(before, *keys);
                &&& r == o.action
                &&& keys.wf(after)
                &&& count_in(after, keys.count) == Some(o.count)
                &&& flags_in(after, keys.passivated) == Some(pair_for(old(self).role, o.own, o.peer))
                &&& final(self).role == old(self).role
                &&& final(self).phase == o.phase
                &&& final(self).peer == Some(old(self).peer_id(before, *keys))
                &&& final(self).ready(after, *keys)
                &&& lookup(after, keys.peer_key(peer_of(old(self).role)).index)
                    == lookup(before, keys.peer_key(peer_of(old(self).role)).index)
                &&& after.len() == before.len()
            }),
    {
        let ghost before = slots_of(*cell);
        let mut state = match cell.take() {
            Some(state) => state,
            None => {
                return Action::Wait;
            },
        };
        let role = self.role;
        if self.phase == Phase::Start {
            let id = match state.remove(keys.peer_slot(role)) {
                Some(Slot::Process(Some(id))) => id,
                _ => 0,
            };
            self.peer = Some(id);
        }
        let peer_id = match self.peer {
            Some(id) => id,
            None => 0,
        };
        let count = match state.get(keys.count) {
            Some(Slot::Count(c)) => *c,
            _ => 0,
        };
        let (producer_flag, consumer_flag) = match state.get(keys.passivated) {
            Some(Slot::Flags(p, c)) => (*p, *c),
            _ => (Passivated::False, Passivated::False),
        };
        let peer_flag = match role {
            Role::Producer => consumer_flag,
            Role::Consumer => producer_flag,
        };
        let o = step(role, self.phase, count, peer_flag, peer_id);
        let flags = match role {
            Role::Producer => Slot::Flags(o.own, o.peer),
            Role::Consumer => Slot::Flags(o.peer, o.own),
        };
        state.replace(keys.count, Slot::Count(o.count));
        state.replace(keys.passivated, flags);
        self.phase = o.phase;
        cell.put(state);
        o.action
    }
}

/// No missed wake-up: a resumption that leaves its own side passivated while
/// it saw its peer passivated wakes the peer in the same step.
pub proof fn lemma_no_missed_wakeup(role: Role, phase: Phase, count: u64, peer: Passivated, peer_id: usize)
    ensures
        ({
            let o = transition(role, phase, count, peer, peer_id);
            o.own == Passivated::True && peer == Passivated::True ==> o.action == Action::Activate(peer_id)
        }),
{
}

/// No duplicate wake: a resumption wakes its peer only when it saw the peer
/// passivated, so a peer already warned, or active, gets no wake event.
pub proof fn lemma_no_duplicate_wake(role: Role, phase: Phase, count: u64, peer: Passivated, peer_id: usize)
    ensures
        transition(role, phase, count, peer, peer_id).action is Activate ==> peer == Passivated::True,
        peer == Passivated::Warned ==> !(transition(role, phase, count, peer, peer_id).action is Activate),
{
}

} // verus!
