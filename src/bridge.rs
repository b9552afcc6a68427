//! The bridge object: a runtime object header followed by the buffer it owns,
//! and the hooks that take it apart, buffer first, header last.

use vstd::prelude::*;
use vstd::layout::size_of;
use crate::kind::ElementKind;
use crate::registry::{RegState, Registry};

verus! {

/// Where a bridge object stands in its life. Phases only move forward,
/// one at a time, in the order listed.
#[derive(Clone, Copy, Debug, PartialEq, Eq, Structural)]
pub enum Phase {
    /// Memory for the object has been allocated; nothing is written yet.
    Uninitialized,
    /// The runtime's header fields are written.
    HeaderInitialized,
    /// The buffer is attached; the object is in use.
    PayloadAttached,
    /// The buffer has been released.
    Dropped,
    /// The header's memory has been given back.
    Deallocated,
}

/// Position of a phase in the life of an object.
pub open spec fn rank(p: Phase) -> nat {
    match p {
        Phase::Uninitialized => 0,
        Phase::HeaderInitialized => 1,
        Phase::PayloadAttached => 2,
        Phase::Dropped => 3,
        Phase::Deallocated => 4,
    }
}

/// One step of taking an object apart, in the order the hooks perform them.
#[derive(Clone, Copy, Debug, PartialEq, Eq, Structural)]
pub enum HookStep {
    /// The buffer's destructor runs over this many elements and frees its storage.
    ReleaseBuffer(usize),
    /// The base object's own drop runs on the header.
    BaseDrop,
    /// The header's memory, this many bytes, goes back to the runtime's allocator.
    FreeHeader(usize),
}

/// Bytes given back by `steps`, for elements of type `T`.
pub open spec fn released_bytes<T>(steps: Seq<HookStep>) -> nat
    decreases steps.len(),
{
    if steps.len() == 0 {
        0
    } else {
        let rest = released_bytes::<T>(steps.drop_last());
        match steps.last() {
            HookStep::ReleaseBuffer(n) => rest + (n as nat) * size_of::<T>(),
            HookStep::BaseDrop => rest,
            HookStep::FreeHeader(b) => rest + (b as nat),
        }
    }
}

/// The hook steps that take apart an object holding `len` elements behind
/// a header of `header_size` bytes: the buffer goes first, then the base
/// object's drop, then the header's memory.
pub open spec fn dealloc_steps(len: nat, header_size: nat) -> Seq<HookStep> {
    seq![
        HookStep::ReleaseBuffer(len as usize),
        HookStep::BaseDrop,
        HookStep::FreeHeader(header_size as usize),
    ]
}

/// Why an object could not be built.
#[derive(Clone, Copy, Debug, PartialEq, Eq, Structural)]
pub enum ConstructError {
    /// The kind's type has not been registered (or its registration failed),
    /// so no object of it may be allocated.
    NotRegistered,
}

/// The runtime's header of a bridge object.
#[derive(Clone, Copy, Debug, PartialEq, Eq, Structural)]
pub struct Header {
    /// Reference count, owned by the runtime from here on.
    pub refcount: usize,
    /// The registered type the object belongs to.
    pub kind: ElementKind,
}

/// A bridge object: the runtime's header, then the slot that owns the buffer.
pub struct BridgeObject<T> {
    kind: ElementKind,
    header_size: usize,
    header: Option<Header>,
    payload: Option<Box<[T]>>,
    phase: Phase,
    history: Ghost<Seq<Phase>>,
}

impl<T> BridgeObject<T> {
    /// The phase the object is in.
    pub closed spec fn phase_of(&self) -> Phase {
        self.phase
    }

    /// The element kind whose type the object was allocated for.
    pub closed spec fn kind_of(&self) -> ElementKind {
        self.kind
    }

    /// Bytes taken by the header.
    pub closed spec fn header_size_of(&self) -> nat {
        self.header_size as nat
    }

    /// The header's fields, once written.
    pub closed spec fn header_of(&self) -> Option<Header> {
        self.header
    }

    /// The elements of the owned buffer, if one is attached.
    pub closed spec fn payload_of(&self) -> Option<Seq<T>> {
        match self.payload {
            Some(b) => Some(b@),
            None => None,
        }
    }

    /// The phases the object has been in, oldest first, ending with the current one.
    pub closed spec fn history_of(&self) -> Seq<Phase> {
        self.history@
    }

    /// Bytes the object holds: the header's until it is freed, and the
    /// buffer's while it is attached.
    pub open spec fn held_bytes(&self) -> nat {
        (if self.phase_of() == Phase::Deallocated { 0 } else { self.header_size_of() })
            + match self.payload_of() {
            Some(s) => s.len() * size_of::<T>(),
            None => 0,
        }
    }

    /// The fields agree with the phase, and the history runs forward one
    /// phase at a time from `Uninitialized` to the current phase.
    pub closed spec fn wf(&self) -> bool {
        &&& self.history@.len() == rank(self.phase) + 1
        &&& forall|i: int| 0 <= i < self.history@.len() ==> rank(#[trigger] self.history@[i]) == i
        &&& (self.header is Some <==> rank(self.phase) >= 1 && rank(self.phase) <= 3)
        &&& (self.header is Some ==> self.header.unwrap().kind == self.kind)
        &&& (self.payload is Some <==> self.phase == Phase::PayloadAttached)
        &&& (self.payload is Some ==> self.payload.unwrap()@.len() <= usize::MAX)
    }

    /// Memory for an object of `kind`'s type, with a header of
    /// `header_size` bytes; nothing is written in it yet.
    pub fn allocate(kind: ElementKind, header_size: usize) -> (r: BridgeObject<T>)
        ensures
            r.wf(),
            r.phase_of() == Phase::Uninitialized,
            r.kind_of() == kind,
            r.header_size_of() == header_size,
            r.header_of() is None,
            r.payload_of() is None,
    {
        let ghost start: Seq<Phase> = seq![Phase::Uninitialized];
        BridgeObject {
            kind,
            header_size,
            header: None,
            payload: None,
            phase: Phase::Uninitialized,
            history: Ghost(start),
        }
    }

    /// Writes the header: one reference, and the object's type.
    pub fn init_header(&mut self)
        requires
            old(self).wf(),
            old(self).phase_of() == Phase::Uninitialized,
        ensures
            final(self).wf(),
            final(self).phase_of() == Phase::HeaderInitialized,
            final(self).header_of() == Some(Header { refcount: 1, kind: old(self).kind_of() }),
            final(self).kind_of() == old(self).kind_of(),
            final(self).header_size_of() == old(self).header_size_of(),
            final(self).payload_of() is None,
            final(self).history_of() == old(self).history_of().push(Phase::HeaderInitialized),
    {
        self.header = Some(Header { refcount: 1, kind: self.kind });
        self.phase = Phase::HeaderInitialized;
        self.history = Ghost(self.history@.push(Phase::HeaderInitialized));
    }

    /// Stores `buffer` in the payload slot; the object owns it from here on.
    /// The header must be written first.
    pub fn attach_payload(&mut self, buffer: Box<[T]>)
        requires
            old(self).wf(),
            old(self).phase_of() == Phase::HeaderInitialized,
        ensures
            final(self).wf(),
            final(self).phase_of() == Phase::PayloadAttached,
            final(self).payload_of() == Some(buffer@),
            final(self).header_of() == old(self).header_of(),
            final(self).kind_of() == old(self).kind_of(),
            final(self).header_size_of() == old(self).header_size_of(),
            final(self).history_of() == old(self).history_of().push(Phase::PayloadAttached),
    {
        // A slice's length is a `usize`: this records the bound for `wf`.
        let _len = buffer.len();
        self.payload = Some(buffer);
        self.phase = Phase::PayloadAttached;
        self.history = Ghost(self.history@.push(Phase::PayloadAttached));
    }

    /// Wraps `buffer` as an object of `kind`'s type, whose header takes
    /// `header_size` bytes. The buffer is taken over as it is, not copied.
    /// Fails, and builds nothing, where `kind`'s type is not ready in `registry`.
    pub fn construct(
        registry: &Registry,
        kind: ElementKind,
        header_size: usize,
        buffer: Box<[T]>,
    ) -> (r: Result<BridgeObject<T>, ConstructError>)
        requires
            registry.wf(),
        ensures
            r is Err <==> registry.state(kind) != RegState::Ready,
            r is Err ==> r == Err::<BridgeObject<T>, ConstructError>(ConstructError::NotRegistered),
            r is Ok ==> ({
                let o = r.unwrap();
                &&& o.wf()
                &&& o.phase_of() == Phase::PayloadAttached
                &&& o.payload_of() == Some(buffer@)
                &&& o.kind_of() == kind
                &&& o.header_of() == Some(Header { refcount: 1, kind })
                &&& o.header_size_of() == header_size
                &&& o.held_bytes() == header_size + buffer@.len() * size_of::<T>()
            }),
    {
        if registry.state_of(kind) != RegState::Ready {
            return Err(ConstructError::NotRegistered);
        }
        let mut o = BridgeObject::allocate(kind, header_size);
        o.init_header();
        o.attach_payload(buffer);
        Ok(o)
    }

    /// The attached buffer's elements, in place.
    pub fn payload(&self) -> (r: &[T])
        requires
            self.wf(),
            self.phase_of() == Phase::PayloadAttached,
        ensures
            self.payload_of() == Some(r@),
    {
        match &self.payload {
            Some(b) => b,
            None => {
                proof {
                    assert(false);
                }
                &[]
            },
        }
    }

    /// The phase the object is in.
    pub fn phase(&self) -> (r: Phase)
        ensures
            r == self.phase_of(),
    {
        self.phase
    }

    /// The element kind of the object's type.
    pub fn kind(&self) -> (r: ElementKind)
        ensures
            r == self.kind_of(),
    {
        self.kind
    }

    /// The header's fields, once written and until the header is freed.
    pub fn header(&self) -> (r: Option<Header>)
        ensures
            r == self.header_of(),
    {
        self.header
    }

    /// Releases the buffer (its destructor runs over every element), then
    /// runs the base object's drop. Returns the steps taken, in order.
    pub fn on_drop(&mut self) -> (r: Vec<HookStep>)
        requires
            old(self).wf(),
            old(self).phase_of() == Phase::PayloadAttached,
        ensures
            final(self).wf(),
            final(self).phase_of() == Phase::Dropped,
            final(self).payload_of() is None,
            final(self).header_of() == old(self).header_of(),
            final(self).kind_of() == old(self).kind_of(),
            final(self).header_size_of() == old(self).header_size_of(),
            final(self).history_of() == old(self).history_of().push(Phase::Dropped),
            final(self).held_bytes() == old(self).header_size_of(),
            r@ == dealloc_steps(
                old(self).payload_of().unwrap().len(),
                old(self).header_size_of(),
            ).take(2),
    {
        let released = match &self.payload {
            Some(b) => b.len(),
            None => 0,
        };
        self.payload = None;
        self.phase = Phase::Dropped;
        self.history = Ghost(self.history@.push(Phase::Dropped));
        let mut steps: Vec<HookStep> = Vec::new();
        steps.push(HookStep::ReleaseBuffer(released));
        steps.push(HookStep::BaseDrop);
        proof {
            assert(steps@ =~= dealloc_steps(
                old(self).payload_of().unwrap().len(),
                old(self).header_size_of(),
            ).take(2));
        }
        steps
    }

    /// Runs `on_drop`, then gives the header's memory back. Returns the
    /// steps taken, in order.
    pub fn on_dealloc(&mut self) -> (r: Vec<HookStep>)
        requires
            old(self).wf(),
            old(self).phase_of() == Phase::PayloadAttached,
        ensures
            final(self).wf(),
            final(self).phase_of() == Phase::Deallocated,
            final(self).payload_of() is None,
            final(self).header_of() is None,
            final(self).kind_of() == old(self).kind_of(),
            final(self).history_of() == old(self).history_of().push(Phase::Dropped).push(
                Phase::Deallocated,
            ),
            final(self).held_bytes() == 0,
            r@ == dealloc_steps(
                old(self).payload_of().unwrap().len(),
                old(self).header_size_of(),
            ),
    {
        let mut steps = self.on_drop();
        self.header = None;
        self.phase = Phase::Deallocated;
        self.history = Ghost(self.history@.push(Phase::Deallocated));
        steps.push(HookStep::FreeHeader(self.header_size));
        proof {
            assert(steps@ =~= dealloc_steps(
                old(self).payload_of().unwrap().len(),
                old(self).header_size_of(),
            ));
        }
        steps
    }
}

/// Taking apart an attached object gives back exactly what it held: the
/// bytes of the buffer it was built from and the bytes of its header.
pub proof fn lemma_dealloc_releases_held<T>(o: BridgeObject<T>)
    requires
        o.wf(),
        o.phase_of() == Phase::PayloadAttached,
    ensures
        released_bytes::<T>(
            dealloc_steps(o.payload_of().unwrap().len(), o.header_size_of()),
        ) == o.held_bytes(),
        o.held_bytes() == o.header_size_of() + o.payload_of().unwrap().len() * size_of::<T>(),
{
    let steps = dealloc_steps(
        o.payload_of().unwrap().len(),
        o.header_size_of(),
    );
    reveal_with_fuel(released_bytes, 4);
    assert(steps.drop_last().drop_last().drop_last() =~= Seq::<HookStep>::empty());
    assert(steps.drop_last().drop_last().last() == steps[0]);
    assert(steps.drop_last().last() == steps[1]);
}

/// The buffer is released exactly once and before the header's memory is
/// freed, which also happens exactly once and last.
pub proof fn lemma_drop_before_free(len: nat, header_size: nat)
    requires
        len <= usize::MAX,
        header_size <= usize::MAX,
    ensures
        ({
            let s = dealloc_steps(len, header_size);
            &&& s.len() == 3
            &&& s[0] == HookStep::ReleaseBuffer(len as usize)
            &&& s[s.len() - 1] == HookStep::FreeHeader(header_size as usize)
            &&& forall|i: int| 0 <= i < s.len() && s[i] is ReleaseBuffer ==> i == 0
            &&& forall|i: int| 0 <= i < s.len() && s[i] is FreeHeader ==> i == s.len() - 1
        }),
{
}

/// An object's phases run strictly forward, one at a time, from
/// `Uninitialized` to its current phase: none is ever revisited.
pub proof fn lemma_phases_forward<T>(o: BridgeObject<T>)
    requires
        o.wf(),
    ensures
        o.history_of()[0] == Phase::Uninitialized,
        o.history_of().last() == o.phase_of(),
        forall|i: int, j: int|
            0 <= i < j < o.history_of().len() ==> rank(o.history_of()[i]) < rank(
                o.history_of()[j],
            ),
        forall|i: int|
            0 < i < o.history_of().len() ==> rank(#[trigger] o.history_of()[i]) == rank(
                o.history_of()[i - 1],
            ) + 1,
{
    let h = o.history_of();
    assert(rank(h[0]) == 0);
    assert(rank(h[h.len() - 1]) == h.len() - 1);
}

} // verus!
