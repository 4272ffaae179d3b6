//! The kinds of failure the runtime reports.
use vstd::prelude::*;

verus! {

/// What went wrong, named after the step that failed.
#[derive(Clone, Copy, Debug, PartialEq, Eq, Structural)]
pub enum ErrorKind {
    /// The loader could not supply the module's bytes.
    Fetch,
    /// The module is malformed, fails validation, or lacks a well-typed
    /// `memory`, `alloc` or `dealloc` export.
    LoadCompile,
    /// A guest import has no matching host service, or two services claim
    /// one import name.
    Link,
    /// The wire codec rejected a value or a byte sequence.
    Encoding,
    /// The guest allocator trapped, or returned offset zero for a
    /// non-empty request.
    Allocation,
    /// A read or write of guest memory was out of bounds.
    Memory,
    /// The guest entry point trapped.
    GuestTrap,
    /// No plugin is loaded under the requested name.
    MissingPlugin,
}

} // verus!
