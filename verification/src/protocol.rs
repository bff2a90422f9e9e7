//! The messages between the server and its clients, and how they are framed
//! on the wire.

use vstd::prelude::*;

pub mod client_to_server;
pub mod io;
pub mod server_to_client;

verus! {

/// An identifier: a 32-bit counter that is never zero. Surfaces and tasks
/// draw their identifiers from one counter.
#[derive(Debug, Clone, Copy, PartialEq, Eq, Structural, Hash)]
pub struct Id(u32);

/// The identifier of a surface.
#[derive(Debug, Clone, Copy, PartialEq, Eq, Structural, Hash)]
pub struct SurfaceId(pub Id);

/// The identifier of a client task.
#[derive(Debug, Clone, Copy, PartialEq, Eq, Structural, Hash)]
pub struct TaskId(pub Id);

impl Id {
    #[verifier::type_invariant]
    spec fn nonzero(self) -> bool {
        self.0 != 0
    }

    /// The number of the identifier.
    pub closed spec fn spec_get(self) -> u32 {
        self.0
    }

    /// The number after `n`, which wraps around to 1 and so skips zero.
    pub open spec fn spec_next(n: u32) -> u32 {
        if n == u32::MAX {
            1
        } else {
            (n + 1) as u32
        }
    }

    /// The first identifier: 1.
    #[inline]
    #[must_use]
    pub fn start() -> (id: Id)
        ensures
            id.spec_get() == 1,
    {
        Id(1)
    }

    /// The identifier with the number `value`, unless that is zero.
    #[inline]
    #[must_use]
    pub fn new(value: u32) -> (id: Option<Id>)
        ensures
            match id {
                Some(id) => value != 0 && id.spec_get() == value,
                None => value == 0,
            },
    {
        if value == 0 {
            None
        } else {
            Some(Id(value))
        }
    }

    /// The number of the identifier; never zero.
    #[inline]
    #[must_use]
    #[verifier::when_used_as_spec(spec_get)]
    pub fn get(self) -> (value: u32)
        ensures
            value == self.spec_get(),
            value != 0,
    {
        proof {
            use_type_invariant(self);
        }
        self.0
    }

    /// The identifier that follows this one: the number grows by one and
    /// wraps around to the first identifier.
    #[must_use]
    pub fn step(self) -> (next: Id)
        ensures
            next.spec_get() == Id::spec_next(self.spec_get()),
            next.spec_get() != 0,
    {
        let next = self.0.wrapping_add(1);
        if next == 0 {
            Id(1)
        } else {
            Id(next)
        }
    }
}

} // verus!
