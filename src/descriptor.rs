//! What the runtime is told about a bridge type when it is registered.

use vstd::prelude::*;
use vstd::layout::size_of;
use crate::kind::{ElementKind, qualified_name_of};

verus! {

/// Whether a type's flag word says it is ready (fully initialized).
pub open spec fn flags_ready(flags: u64) -> bool {
    flags & 0x1000u64 != 0
}

/// Size in bytes of a bridge object: the runtime's object header, then the
/// payload slot, a slice pointer (start address and length).
pub open spec fn object_size_of(header_size: nat) -> nat {
    header_size + 2 * size_of::<usize>()
}

/// The registration record of one kind's bridge type.
#[derive(Clone, Copy, Debug)]
pub struct TypeDescriptor {
    /// Fully qualified name: the kind's namespace, then the type's own name.
    pub name: &'static str,
    /// Human-readable description.
    pub description: &'static str,
    /// Size of one object in bytes.
    pub basic_size: usize,
    /// Registration flags.
    pub flags: u64,
}

/// Relies on the `Py_TPFLAGS_READY` constant of pyo3's ffi module, which
/// its source defines as `1 << 12`.
#[verifier::external_body]
fn type_ready_flag() -> (r: u64)
    ensures
        r == 0x1000u64,
{
    pyo3::ffi::Py_TPFLAGS_READY as u64
}

/// Whether a type whose flag word is `type_flags` still has to be
/// initialized by the runtime before objects of it can be allocated.
pub fn needs_initialization(type_flags: u64) -> (r: bool)
    ensures
        r == !flags_ready(type_flags),
{
    let ready = type_ready_flag();
    type_flags & ready == 0
}

/// Size of a bridge object whose runtime header takes `header_size` bytes,
/// or `None` where it does not fit in `usize`.
pub fn object_size(header_size: usize) -> (r: Option<usize>)
    ensures
        r.is_some() <==> object_size_of(header_size as nat) <= usize::MAX,
        r.is_some() ==> r.unwrap() as nat == object_size_of(header_size as nat),
{
    let word = core::mem::size_of::<usize>();
    match word.checked_mul(2) {
        Some(slot) => header_size.checked_add(slot),
        None => None,
    }
}

/// The registration record of `kind`'s bridge type, whose objects start
/// with a runtime header of `header_size` bytes; `None` where the object
/// size does not fit in `usize`.
pub fn descriptor_for(kind: ElementKind, header_size: usize) -> (r: Option<TypeDescriptor>)
    ensures
        r.is_some() <==> object_size_of(header_size as nat) <= usize::MAX,
        r.is_some() ==> ({
            let d = r.unwrap();
            &&& d.name@ == qualified_name_of(kind)
            &&& d.description@ == "Memory store for PyArray using rust's Box<[T]>."@
            &&& d.basic_size as nat == object_size_of(header_size as nat)
            &&& d.flags == 0
        }),
{
    match object_size(header_size) {
        Some(basic_size) => Some(
            TypeDescriptor {
                name: kind.qualified_name(),
                description: "Memory store for PyArray using rust's Box<[T]>.",
                basic_size,
                flags: 0,
            },
        ),
        None => None,
    }
}

} // verus!
