//! The assembled scenario: the shared store in its cell, the slot handles and
//! the two processes, resumed one at a time by the scheduler.
use vstd::prelude::*;

use crate::cell::Exchange;
use crate::protocol::{
    count_in, flag_of, flags_in, peer_of, slots_of, transition, Action, Keys,
    Passivated, Phase, Process, Role, Slot, THRESHOLD,
};
use crate::state::{lookup, State};

verus! {

/// What the scenario is, between two resumptions.
pub struct World {
    pub count: u64,
    pub producer_flag: Passivated,
    pub consumer_flag: Passivated,
    pub producer_phase: Phase,
    pub consumer_phase: Phase,
}

/// The scenario's state right after assembly.
pub open spec fn initial_world() -> World {
    World {
        count: 0,
        producer_flag: Passivated::False,
        consumer_flag: Passivated::False,
        producer_phase: Phase::Start,
        consumer_phase: Phase::Start,
    }
}

/// The world after resuming `role`, and the request it makes, when the
/// producer's identifier is `producer_id` and the consumer's `consumer_id`.
pub open spec fn advance(w: World, role: Role, producer_id: usize, consumer_id: usize) -> (World, Action) {
    match role {
        Role::Producer => {
            let o = transition(Role::Producer, w.producer_phase, w.count, w.consumer_flag, consumer_id);
            (World { count: o.count, producer_flag: o.own, consumer_flag: o.peer, producer_phase: o.phase, ..w }, o.action)
        },
        Role::Consumer => {
            let o = transition(Role::Consumer, w.consumer_phase, w.count, w.producer_flag, producer_id);
            (World { count: o.count, producer_flag: o.peer, consumer_flag: o.own, consumer_phase: o.phase, ..w }, o.action)
        },
    }
}

/// The world after resuming the sides in `order`, one after another.
pub open spec fn replay(w: World, order: Seq<Role>, producer_id: usize, consumer_id: usize) -> World
    decreases order.len(),
{
    if order.len() == 0 {
        w
    } else {
        replay(advance(w, order[0], producer_id, consumer_id).0, order.drop_first(), producer_id, consumer_id)
    }
}

/// The store, the handles and the two processes of one run.
pub struct Scenario {
    cell: Exchange<State<Slot>>,
    keys: Keys,
    producer: Process,
    consumer: Process,
    /// The process identifiers of producer and consumer, once registered.
    ids: Option<(usize, usize)>,
}

impl Scenario {
    /// The slots of the store.
    pub closed spec fn slots(&self) -> Seq<Option<Slot>> {
        slots_of(self.cell)
    }

    /// The process identifiers, once registered.
    pub closed spec fn ids(&self) -> Option<(usize, usize)> {
        self.ids
    }

    pub closed spec fn view(&self) -> World {
        let flags = flags_in(self.slots(), self.keys.passivated).unwrap();
        World {
            count: count_in(self.slots(), self.keys.count).unwrap(),
            producer_flag: flags.0,
            consumer_flag: flags.1,
            producer_phase: self.producer.phase,
            consumer_phase: self.consumer.phase,
        }
    }

    /// The store is in its cell with its slots in place, the count is within
    /// the threshold, and each process knows, or will read, its peer's
    /// identifier.
    pub closed spec fn wf(&self) -> bool {
        &&& self.cell@ is Some
        &&& self.keys.wf(self.slots())
        &&& count_in(self.slots(), self.keys.count).unwrap() <= THRESHOLD
        &&& self.producer.role == Role::Producer
        &&& self.consumer.role == Role::Consumer
        &&& match self.ids {
            None => {
                &&& self.producer.phase == Phase::Start
                &&& self.consumer.phase == Phase::Start
                &&& lookup(self.slots(), self.keys.producer.index) == Some(Slot::Process(None))
                &&& lookup(self.slots(), self.keys.consumer.index) == Some(Slot::Process(None))
            },
            Some((p, c)) => {
                &&& self.producer.ready(self.slots(), self.keys)
                &&& self.consumer.ready(self.slots(), self.keys)
                &&& self.producer.peer_id(self.slots(), self.keys) == c
                &&& self.consumer.peer_id(self.slots(), self.keys) == p
            },
        }
    }

    /// Assembles the scenario: a count of zero, both flags cleared, and two
    /// empty slots for the process identifiers.
    pub fn new() -> (r: Scenario)
        ensures
            r.wf(),
            r.ids() is None,
            r.view() == initial_world(),
    {
        let mut state: State<Slot> = State::new();
        let count = state.insert(Slot::Count(0));
        let producer = state.insert(Slot::Process(None));
        let consumer = state.insert(Slot::Process(None));
        let passivated = state.insert(Slot::Flags(Passivated::False, Passivated::False));
        let keys = Keys { count, producer, consumer, passivated };
        Scenario {
            cell: Exchange::new(state),
            keys,
            producer: Process::new(Role::Producer),
            consumer: Process::new(Role::Consumer),
            ids: None,
        }
    }

    /// Records the identifiers that the scheduler gave the two processes.
    pub fn register(&mut self, producer_id: usize, consumer_id: usize)
        requires
            old(self).wf(),
            old(self).ids() is None,
        ensures
            final(self).wf(),
            final(self).ids() == Some((producer_id, consumer_id)),
            final(self).view() == old(self).view(),
    {
        let mut state = match self.cell.take() {
            Some(state) => state,
            None => {
                return;
            },
        };
        state.replace(self.keys.producer, Slot::Process(Some(producer_id)));
        state.replace(self.keys.consumer, Slot::Process(Some(consumer_id)));
        self.cell.put(state);
        self.ids = Some((producer_id, consumer_id));
    }

    /// Resumes the process of `role` until its next suspension point and
    /// returns what it asks of the scheduler.
    pub fn resume(&mut self, role: Role) -> (r: Action)
        requires
            old(self).wf(),
            old(self).ids() is Some,
        ensures
            final(self).wf(),
            final(self).ids() == old(self).ids(),
            (final(self).view(), r) == advance(
                old(self).view(),
                role,
                old(self).ids().unwrap().0,
                old(self).ids().unwrap().1,
            ),
    {
        proof {
            lemma_count_bounded(
                role,
                if role == Role::Producer { self.producer.phase } else { self.consumer.phase },
                count_in(self.slots(), self.keys.count).unwrap(),
                flag_of(peer_of(role), flags_in(self.slots(), self.keys.passivated).unwrap()),
                if role == Role::Producer { self.producer.peer_id(self.slots(), self.keys) } else { self.consumer.peer_id(self.slots(), self.keys) },
            );
        }
        match role {
            Role::Producer => self.producer.resume(&mut self.cell, &self.keys),
            Role::Consumer => self.consumer.resume(&mut self.cell, &self.keys),
        }
    }

    /// The passivation flags of producer and consumer.
    pub fn flags(&self) -> (r: (Passivated, Passivated))
        requires
            self.wf(),
        ensures
            r == (self.view().producer_flag, self.view().consumer_flag),
    {
        let state = self.cell.peek();
        match state.get(self.keys.passivated) {
            Some(Slot::Flags(p, c)) => (*p, *c),
            _ => (Passivated::False, Passivated::False),
        }
    }

    /// The current count.
    pub fn count(&self) -> (r: u64)
        requires
            self.wf(),
        ensures
            r == self.view().count,
    {
        let state = self.cell.peek();
        match state.get(self.keys.count) {
            Some(Slot::Count(c)) => *c,
            _ => 0,
        }
    }
}

/// Neither side ever takes the count above the threshold: the producer adds
/// only below it, and the consumer never subtracts more than there is.
pub proof fn lemma_count_bounded(role: Role, phase: Phase, count: u64, peer: Passivated, peer_id: usize)
    requires
        count <= THRESHOLD,
    ensures
        transition(role, phase, count, peer, peer_id).count <= THRESHOLD,
{
}

/// Whatever order the scheduler resumes the sides in, the count never goes
/// above the threshold, starting from any count within it.
pub proof fn lemma_replay_bounded(w: World, order: Seq<Role>, producer_id: usize, consumer_id: usize)
    requires
        w.count <= THRESHOLD,
    ensures
        replay(w, order, producer_id, consumer_id).count <= THRESHOLD,
    decreases order.len(),
{
    if order.len() > 0 {
        let r = order[0];
        let w2 = advance(w, r, producer_id, consumer_id).0;
        match r {
            Role::Producer => lemma_count_bounded(r, w.producer_phase, w.count, w.consumer_flag, consumer_id),
            Role::Consumer => lemma_count_bounded(r, w.consumer_phase, w.count, w.producer_flag, producer_id),
        }
        lemma_replay_bounded(w2, order.drop_first(), producer_id, consumer_id);
    }
}

/// Two runs from the same state, with the same identifiers and the same order
/// of resumptions, end with the same count, flags and phases.
pub proof fn lemma_replay_deterministic(a: World, b: World, order: Seq<Role>, producer_id: usize, consumer_id: usize)
    requires
        a == b,
    ensures
        replay(a, order, producer_id, consumer_id) == replay(b, order, producer_id, consumer_id),
{
}

} // verus!
