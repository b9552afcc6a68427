//! Ownership bridge that hands a natively allocated buffer to a
//! reference-counted object runtime without copying it: per-kind type
//! identities, a one-shot registration latch, the object's layout and the
//! lifecycle that frees the buffer before the object's header.

pub mod kind;
pub mod registry;
pub mod descriptor;
pub mod bridge;
