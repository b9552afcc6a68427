//! The one-shot latch that registers each kind's object type at most once.
//!
//! Callers racing to use a kind ask the registry for admission. Exactly one of
//! them is told to register; the others wait until it has finished and then
//! proceed, or fail if the registration failed (the latch never resets).

use vstd::prelude::*;
use crate::kind::{ElementKind, KIND_COUNT, index_of};

verus! {

/// Where the registration of one kind's type stands.
#[derive(Clone, Copy, Debug, PartialEq, Eq, Structural)]
pub enum RegState {
    /// Nobody has asked for this kind yet.
    Idle,
    /// One caller is registering the type.
    Running,
    /// The type is registered and ready for allocation.
    Ready,
    /// The registration failed; every later request fails too.
    Poisoned,
}

/// What the registry tells a caller that asks to use a kind.
#[derive(Clone, Copy, Debug, PartialEq, Eq, Structural)]
pub enum Admission {
    /// Register the type now, then report the outcome with `finish`.
    Register,
    /// Another caller is registering: ask again once it has finished.
    Wait,
    /// The type is ready: go on and allocate.
    Proceed,
    /// The registration failed earlier: give up.
    Fail,
}

/// One step seen by the registry.
#[derive(Clone, Copy, Debug, PartialEq, Eq, Structural)]
pub enum RegEvent {
    /// A caller asks to use a kind.
    Request(ElementKind),
    /// The registering caller reports the outcome for a kind.
    Finish(ElementKind, bool),
}

/// State after a request, and the admission it gets.
pub open spec fn on_request(s: RegState) -> (RegState, Admission) {
    match s {
        RegState::Idle => (RegState::Running, Admission::Register),
        RegState::Running => (RegState::Running, Admission::Wait),
        RegState::Ready => (RegState::Ready, Admission::Proceed),
        RegState::Poisoned => (RegState::Poisoned, Admission::Fail),
    }
}

/// State after the registering caller reports success (`ok`) or failure.
/// A report while nobody is registering changes nothing.
pub open spec fn complete(s: RegState, ok: bool) -> RegState {
    match s {
        RegState::Running => if ok { RegState::Ready } else { RegState::Poisoned },
        _ => s,
    }
}

/// The registration state of kind `k` after `events`, starting from `s`.
pub open spec fn state_after(s: RegState, events: Seq<RegEvent>, k: ElementKind) -> RegState
    decreases events.len(),
{
    if events.len() == 0 {
        s
    } else {
        let rest = events.drop_last();
        let prev = state_after(s, rest, k);
        match events.last() {
            RegEvent::Request(j) => if j == k { on_request(prev).0 } else { prev },
            RegEvent::Finish(j, ok) => if j == k { complete(prev, ok) } else { prev },
        }
    }
}

/// How many requests for kind `k` among `events` were told to register,
/// starting from state `s`.
pub open spec fn registrations(s: RegState, events: Seq<RegEvent>, k: ElementKind) -> nat
    decreases events.len(),
{
    if events.len() == 0 {
        0
    } else {
        let rest = events.drop_last();
        let before = registrations(s, rest, k);
        match events.last() {
            RegEvent::Request(j) => if j == k && on_request(state_after(s, rest, k)).1
                == Admission::Register {
                before + 1
            } else {
                before
            },
            RegEvent::Finish(_, _) => before,
        }
    }
}

/// Whether `events` hold a request for kind `k`.
pub open spec fn requested(events: Seq<RegEvent>, k: ElementKind) -> bool {
    exists|i: int| 0 <= i < events.len() && events[i] == RegEvent::Request(k)
}

/// Whatever the interleaving of requests and reports, a kind's type is
/// registered once if it was ever requested and never otherwise; every
/// other request waits, proceeds or fails.
pub proof fn lemma_registered_exactly_once(events: Seq<RegEvent>, k: ElementKind)
    ensures
        registrations(RegState::Idle, events, k) == if requested(events, k) { 1nat } else { 0nat },
        requested(events, k) <==> state_after(RegState::Idle, events, k) != RegState::Idle,
    decreases events.len(),
{
    if events.len() > 0 {
        let rest = events.drop_last();
        lemma_registered_exactly_once(rest, k);
        if requested(rest, k) {
            let i = choose|i: int| 0 <= i < rest.len() && rest[i] == RegEvent::Request(k);
            assert(events[i] == RegEvent::Request(k));
        }
        if requested(events, k) && !requested(rest, k) {
            let i = choose|i: int| 0 <= i < events.len() && events[i] == RegEvent::Request(k);
            if i < rest.len() {
                assert(rest[i] == events[i]);
            }
            assert(events.last() == RegEvent::Request(k));
        }
        if events.last() == RegEvent::Request(k) {
            assert(events[events.len() - 1] == RegEvent::Request(k));
        }
    }
}

/// Once a kind's type is ready, it stays ready and every request for it
/// proceeds without registering again.
pub proof fn lemma_ready_is_stable(events: Seq<RegEvent>, k: ElementKind)
    ensures
        state_after(RegState::Ready, events, k) == RegState::Ready,
        registrations(RegState::Ready, events, k) == 0,
    decreases events.len(),
{
    if events.len() > 0 {
        lemma_ready_is_stable(events.drop_last(), k);
    }
}

/// The registration latches of all kinds.
pub struct Registry {
    slots: Vec<RegState>,
}

impl Registry {
    /// The registration state of kind `k`.
    pub closed spec fn state(&self, k: ElementKind) -> RegState {
        self.slots@[index_of(k) as int]
    }

    /// One slot per kind.
    pub closed spec fn wf(&self) -> bool {
        self.slots@.len() == KIND_COUNT
    }

    /// A registry in which no kind has been requested.
    pub fn new() -> (r: Registry)
        ensures
            r.wf(),
            forall|k: ElementKind| r.state(k) == RegState::Idle,
    {
        let mut slots: Vec<RegState> = Vec::new();
        let mut i: usize = 0;
        while i < KIND_COUNT
            invariant
                i <= KIND_COUNT,
                slots@.len() == i,
                forall|j: int| 0 <= j < i ==> slots@[j] == RegState::Idle,
            decreases KIND_COUNT - i,
        {
            slots.push(RegState::Idle);
            i = i + 1;
        }
        Registry { slots }
    }

    /// The registration state of `kind`.
    pub fn state_of(&self, kind: ElementKind) -> (r: RegState)
        requires
            self.wf(),
        ensures
            r == self.state(kind),
    {
        self.slots[kind.index()]
    }

    /// A caller asks to use `kind`: the registry answers as `on_request` says.
    pub fn request(&mut self, kind: ElementKind) -> (r: Admission)
        requires
            old(self).wf(),
        ensures
            final(self).wf(),
            r == on_request(old(self).state(kind)).1,
            final(self).state(kind) == on_request(old(self).state(kind)).0,
            forall|j: ElementKind| j != kind ==> final(self).state(j) == old(self).state(j),
    {
        let i = kind.index();
        let (next, r) = match self.slots[i] {
            RegState::Idle => (RegState::Running, Admission::Register),
            RegState::Running => (RegState::Running, Admission::Wait),
            RegState::Ready => (RegState::Ready, Admission::Proceed),
            RegState::Poisoned => (RegState::Poisoned, Admission::Fail),
        };
        self.slots.set(i, next);
        proof {
            assert forall|j: ElementKind| j != kind implies final(self).state(j) == old(self).state(j) by {
                if index_of(j) == index_of(kind) {
                    assert(j == kind);
                }
            }
        }
        r
    }

    /// The caller that was told to register reports whether it succeeded.
    pub fn finish(&mut self, kind: ElementKind, ok: bool)
        requires
            old(self).wf(),
            old(self).state(kind) == RegState::Running,
        ensures
            final(self).wf(),
            final(self).state(kind) == complete(old(self).state(kind), ok),
            forall|j: ElementKind| j != kind ==> final(self).state(j) == old(self).state(j),
    {
        let i = kind.index();
        let next = if ok { RegState::Ready } else { RegState::Poisoned };
        self.slots.set(i, next);
        proof {
            assert forall|j: ElementKind| j != kind implies final(self).state(j) == old(self).state(j) by {
                if index_of(j) == index_of(kind) {
                    assert(j == kind);
                }
            }
        }
    }
}

} // verus!
