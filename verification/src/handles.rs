//! Plain-word models of the native driver handles.
//!
//! The driver hands out opaque pointers for platforms, memory objects,
//! queues, events and programs.  This layer never dereferences them, so each
//! is carried here as a machine word: enough for the logic that routes,
//! stores and emits them, while the code that actually talks to the driver
//! converts to and from its pointer types at the boundary.

use vstd::prelude::*;

use crate::error::{OclError, OclResult};
use vstd::string::*;

verus! {

/// A platform handle.
#[derive(Clone, Copy, Debug, PartialEq, Eq, Structural)]
pub struct PlatformId {
    pub raw: usize,
}

impl PlatformId {
    /// Wraps a raw platform word.
    pub fn new(raw: usize) -> (p: PlatformId)
        ensures
            p.raw == raw,
    {
        PlatformId { raw }
    }
}

/// A device-memory object handle.
#[derive(Clone, Copy, Debug, PartialEq, Eq, Structural)]
pub struct Mem {
    pub raw: usize,
}

impl Mem {
    /// Wraps a raw memory-object word.
    pub fn new(raw: usize) -> (m: Mem)
        ensures
            m.raw == raw,
    {
        Mem { raw }
    }
}

/// A command-queue handle.
#[derive(Clone, Copy, Debug, PartialEq, Eq, Structural)]
pub struct CommandQueue {
    pub raw: usize,
}

impl CommandQueue {
    /// Wraps a raw command-queue word.
    pub fn new(raw: usize) -> (q: CommandQueue)
        ensures
            q.raw == raw,
    {
        CommandQueue { raw }
    }
}

/// An event handle signaling completion of a queued operation.
#[derive(Clone, Copy, Debug, PartialEq, Eq, Structural)]
pub struct Event {
    pub raw: usize,
}

impl Event {
    /// Wraps a raw event word.
    pub fn new(raw: usize) -> (e: Event)
        ensures
            e.raw == raw,
    {
        Event { raw }
    }

    /// A null event placeholder, to be populated by an enqueue call.
    pub fn null() -> (e: Event)
        ensures
            e.raw == 0,
    {
        Event { raw: 0 }
    }

    /// True of a placeholder that no enqueue call has populated.
    pub fn is_null(&self) -> (b: bool)
        ensures
            b == (self.raw == 0),
    {
        self.raw == 0
    }

    /// Checks that an enqueue call populated this event: a handle that is
    /// still null is reported as a native-layer failure.
    pub fn validate(self) -> (r: OclResult<Event>)
        ensures
            self.raw != 0 ==> r == Ok::<Event, OclError>(self),
            self.raw == 0 ==> (r matches Err(e) && e matches OclError::Native {
                status,
                message,
            } && status == 0 && message@ == "Event::validate: Null event."@),
    {
        if self.raw != 0 {
            Ok(self)
        } else {
            Err(
                OclError::Native {
                    status: 0,
                    message: String::from_str("Event::validate: Null event."),
                },
            )
        }
    }
}

/// A user-event handle, signaled by this layer when an unmap completes.
#[derive(Clone, Copy, Debug, PartialEq, Eq, Structural)]
pub struct UserEvent {
    pub raw: usize,
}

impl UserEvent {
    /// Wraps a raw user-event word.
    pub fn new(raw: usize) -> (e: UserEvent)
        ensures
            e.raw == raw,
    {
        UserEvent { raw }
    }
}

/// A compiled-program handle.
#[derive(Clone, Copy, Debug, PartialEq, Eq, Structural)]
pub struct ProgramCore {
    pub raw: usize,
}

impl ProgramCore {
    /// Wraps a raw program word.
    pub fn new(raw: usize) -> (p: ProgramCore)
        ensures
            p.raw == raw,
    {
        ProgramCore { raw }
    }
}

} // verus!
