use std::cell::RefCell;
use std::rc::Rc;

use slice_box::bridge::{BridgeObject, ConstructError, Header, HookStep, Phase};
use slice_box::kind::ElementKind;
use slice_box::registry::{Admission, Registry};

const HEADER: usize = 16;

fn ready(kind: ElementKind) -> Registry {
    let mut r = Registry::new();
    assert_eq!(r.request(kind), Admission::Register);
    r.finish(kind, true);
    r
}

/// An element that records in a shared log when its destructor runs.
struct Logged {
    id: u32,
    log: Rc<RefCell<Vec<u32>>>,
}

impl Drop for Logged {
    fn drop(&mut self) {
        self.log.borrow_mut().push(self.id);
    }
}

#[test]
fn construct_needs_registration() {
    let r = Registry::new();
    let b: Box<[i32]> = vec![1, 2, 3].into_boxed_slice();
    let o = BridgeObject::construct(&r, ElementKind::Int32, HEADER, b);
    assert!(matches!(o, Err(ConstructError::NotRegistered)));

    let mut r = Registry::new();
    assert_eq!(r.request(ElementKind::Int32), Admission::Register);
    let b: Box<[i32]> = vec![1, 2, 3].into_boxed_slice();
    let o = BridgeObject::construct(&r, ElementKind::Int32, HEADER, b);
    assert!(matches!(o, Err(ConstructError::NotRegistered)));
}

#[test]
fn payload_is_the_buffer_itself() {
    let r = ready(ElementKind::Int32);
    let b: Box<[i32]> = vec![7, -1, 42, 0].into_boxed_slice();
    let addr = b.as_ptr();
    let o = BridgeObject::construct(&r, ElementKind::Int32, HEADER, b).unwrap();
    assert_eq!(o.payload(), &[7, -1, 42, 0]);
    assert_eq!(o.payload().as_ptr(), addr);
    assert_eq!(o.phase(), Phase::PayloadAttached);
    assert_eq!(o.kind(), ElementKind::Int32);
    assert_eq!(o.header(), Some(Header { refcount: 1, kind: ElementKind::Int32 }));
}

#[test]
fn payload_bytes_are_unchanged() {
    let r = ready(ElementKind::Uint8);
    let bytes: Vec<u8> = (0..=255).collect();
    let o = BridgeObject::construct(&r, ElementKind::Uint8, HEADER, bytes.clone().into_boxed_slice())
        .unwrap();
    assert_eq!(o.payload(), &bytes[..]);
}

#[test]
fn phases_run_forward() {
    let mut o: BridgeObject<u16> = BridgeObject::allocate(ElementKind::Uint16, HEADER);
    assert_eq!(o.phase(), Phase::Uninitialized);
    assert_eq!(o.header(), None);
    o.init_header();
    assert_eq!(o.phase(), Phase::HeaderInitialized);
    assert_eq!(o.header(), Some(Header { refcount: 1, kind: ElementKind::Uint16 }));
    o.attach_payload(vec![5u16, 6].into_boxed_slice());
    assert_eq!(o.phase(), Phase::PayloadAttached);
    let steps = o.on_drop();
    assert_eq!(steps, vec![HookStep::ReleaseBuffer(2), HookStep::BaseDrop]);
    assert_eq!(o.phase(), Phase::Dropped);
    assert_eq!(o.header(), Some(Header { refcount: 1, kind: ElementKind::Uint16 }));
}

#[test]
fn dealloc_releases_buffer_then_header() {
    let r = ready(ElementKind::Int64);
    let b: Box<[i64]> = vec![1, 2, 3].into_boxed_slice();
    let mut o = BridgeObject::construct(&r, ElementKind::Int64, HEADER, b).unwrap();
    let steps = o.on_dealloc();
    assert_eq!(
        steps,
        vec![HookStep::ReleaseBuffer(3), HookStep::BaseDrop, HookStep::FreeHeader(HEADER)]
    );
    assert_eq!(o.phase(), Phase::Deallocated);
    assert_eq!(o.header(), None);
}

#[test]
fn destructors_run_before_header_is_freed() {
    let log = Rc::new(RefCell::new(Vec::new()));
    let items: Vec<Logged> = (0..4).map(|id| Logged { id, log: log.clone() }).collect();
    let r = ready(ElementKind::Uint32);
    let mut o = BridgeObject::construct(&r, ElementKind::Uint32, HEADER, items.into_boxed_slice())
        .unwrap();
    assert!(log.borrow().is_empty());
    let steps = o.on_drop();
    assert_eq!(*log.borrow(), vec![0, 1, 2, 3]);
    assert_eq!(steps, vec![HookStep::ReleaseBuffer(4), HookStep::BaseDrop]);
    assert_eq!(o.phase(), Phase::Dropped);
}

#[test]
fn dealloc_releases_every_element_once() {
    let log = Rc::new(RefCell::new(Vec::new()));
    let items: Vec<Logged> = (10..15).map(|id| Logged { id, log: log.clone() }).collect();
    let r = ready(ElementKind::Uint32);
    let mut o = BridgeObject::construct(&r, ElementKind::Uint32, HEADER, items.into_boxed_slice())
        .unwrap();
    let steps = o.on_dealloc();
    let release = steps.iter().position(|s| matches!(s, HookStep::ReleaseBuffer(_))).unwrap();
    let free = steps.iter().position(|s| matches!(s, HookStep::FreeHeader(_))).unwrap();
    assert!(release < free);
    assert_eq!(*log.borrow(), vec![10, 11, 12, 13, 14]);
    drop(o);
    assert_eq!(log.borrow().len(), 5);
    assert_eq!(Rc::strong_count(&log), 1);
}

#[test]
fn released_bytes_match_what_was_owned() {
    let r = ready(ElementKind::Float64);
    let b: Box<[f64]> = vec![1.5, 2.5, 3.5].into_boxed_slice();
    let owned = b.len() * std::mem::size_of::<f64>() + HEADER;
    let mut o = BridgeObject::construct(&r, ElementKind::Float64, HEADER, b).unwrap();
    let mut released = 0;
    for s in o.on_dealloc() {
        released += match s {
            HookStep::ReleaseBuffer(n) => n * std::mem::size_of::<f64>(),
            HookStep::BaseDrop => 0,
            HookStep::FreeHeader(h) => h,
        };
    }
    assert_eq!(released, owned);
}

#[test]
fn empty_buffer_round_trip() {
    let r = ready(ElementKind::Int8);
    let b: Box<[i8]> = Vec::new().into_boxed_slice();
    let mut o = BridgeObject::construct(&r, ElementKind::Int8, HEADER, b).unwrap();
    assert_eq!(o.payload().len(), 0);
    assert_eq!(o.phase(), Phase::PayloadAttached);
    let steps = o.on_dealloc();
    assert_eq!(
        steps,
        vec![HookStep::ReleaseBuffer(0), HookStep::BaseDrop, HookStep::FreeHeader(HEADER)]
    );
    assert_eq!(o.phase(), Phase::Deallocated);
}

#[test]
fn two_kinds_two_objects() {
    let mut r = Registry::new();
    for k in [ElementKind::Int64, ElementKind::Float64] {
        assert_eq!(r.request(k), Admission::Register);
        r.finish(k, true);
    }
    let a = BridgeObject::construct(&r, ElementKind::Int64, HEADER, vec![1i64].into_boxed_slice())
        .unwrap();
    let b = BridgeObject::construct(&r, ElementKind::Float64, HEADER, vec![1.0f64].into_boxed_slice())
        .unwrap();
    assert_ne!(a.kind(), b.kind());
    assert_ne!(a.kind().qualified_name(), b.kind().qualified_name());
}
