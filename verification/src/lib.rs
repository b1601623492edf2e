//! Compile-time elimination of forwarding boilerplate: from the structured
//! description of an interface, generation synthesizes a companion access
//! interface (one associated delegate type and three ownership-mode
//! accessors) and a universal forwarding conformance that delegates every
//! item to the inner value; from the description of an aggregate type, it
//! wires declared fields directly to access interfaces.

pub mod model;
pub mod output;
pub mod receiver;
pub mod semantics;
pub mod synthesis;
pub mod wiring;
