//! The mapped-memory lifecycle.
//!
//! A `MappedMem` owns a host-visible window into device memory.  Its state
//! machine is verified here: the window is readable only while mapped, an
//! unmap may be requested exactly once, and a completion trigger may be
//! registered at most once.  The actual enqueue of the unmap command is the
//! driver's: [`MappedMem::unmap`] decides and hands out the exact command,
//! and [`MappedMem::unmap_enqueued`] applies the driver's answer.

use vstd::prelude::*;
use vstd::string::*;

use crate::error::{OclError, OclResult};
use crate::handles::{CommandQueue, Event, Mem, UserEvent};

verus! {

/// Marker for plain types that device memory may hold.
pub trait OclPrm: Copy {

}

impl OclPrm for u8 {

}

impl OclPrm for i8 {

}

impl OclPrm for u16 {

}

impl OclPrm for i16 {

}

impl OclPrm for u32 {

}

impl OclPrm for i32 {

}

impl OclPrm for u64 {

}

impl OclPrm for i64 {

}

impl OclPrm for usize {

}

impl OclPrm for isize {

}

/// The host-visible base address of a mapped window, tagged with the
/// element type the window holds.
#[derive(Debug)]
pub struct MappedMemPtr<T: OclPrm> {
    addr: usize,
    elem: core::marker::PhantomData<T>,
}

impl<T: OclPrm> MappedMemPtr<T> {
    /// The base address.
    pub closed spec fn spec_addr(&self) -> usize {
        self.addr
    }

    /// Wraps a host-visible base address.
    pub fn new(addr: usize) -> (p: MappedMemPtr<T>)
        ensures
            p.spec_addr() == addr,
    {
        MappedMemPtr { addr, elem: core::marker::PhantomData }
    }

    /// Returns the base address.
    #[verifier::when_used_as_spec(spec_addr)]
    pub fn as_ptr(&self) -> (a: usize)
        ensures
            a == self.spec_addr(),
    {
        self.addr
    }
}

/// How a region still mapped at end of life is handled: refusing to be
/// dropped, or requesting a best-effort unmap through a deferred
/// completion callback.
#[derive(Clone, Copy, Debug, PartialEq, Eq, Structural)]
pub enum CompletionPolicy {
    Eager,
    Deferred,
}

/// What the owner of a region must do when it goes out of scope.
#[derive(Clone, Copy, Debug, PartialEq, Eq, Structural)]
pub enum DropDisposition {
    /// Already unmapped: nothing to do.
    AlreadyUnmapped,
    /// Still mapped under the deferred policy: enqueue a best-effort
    /// unmap and ignore its result.
    UnmapBestEffort,
    /// Still mapped under the eager policy: a fatal contract violation.
    Violation,
}

/// The exact arguments of the native unmap enqueue call.  An empty wait
/// list stands for the call's no-events case (a zero count and a null
/// list pointer).
#[derive(Clone, Debug, PartialEq)]
pub struct UnmapCommand {
    pub queue: CommandQueue,
    pub buffer: Mem,
    pub mem_ptr: usize,
    pub wait_list: Vec<Event>,
    pub request_event: bool,
}

/// The mathematical shape of an [`UnmapCommand`].
pub ghost struct UnmapCommandView {
    pub queue: CommandQueue,
    pub buffer: Mem,
    pub mem_ptr: usize,
    pub wait_list: Seq<Event>,
    pub request_event: bool,
}

impl View for UnmapCommand {
    type V = UnmapCommandView;

    closed spec fn view(&self) -> UnmapCommandView {
        UnmapCommandView {
            queue: self.queue,
            buffer: self.buffer,
            mem_ptr: self.mem_ptr,
            wait_list: self.wait_list@,
            request_event: self.request_event,
        }
    }
}

/// What the driver must be told to register a completion trigger: the
/// event to watch and the user-event word handed to the callback.
#[derive(Clone, Copy, Debug, PartialEq, Eq, Structural)]
pub struct EventTrigger {
    pub event: Event,
    pub user_data: usize,
}

/// A view of memory mapped by a map enqueue call.
pub struct MappedMem<T: OclPrm> {
    ptr: MappedMemPtr<T>,
    len: usize,
    buffer: Mem,
    queue: CommandQueue,
    unmap_event: Option<UserEvent>,
    callback_is_set: bool,
    is_unmapped: bool,
    policy: CompletionPolicy,
}

/// The mathematical state of a [`MappedMem`].
pub ghost struct MappedMemView {
    pub ptr: usize,
    pub len: usize,
    pub buffer: Mem,
    pub queue: CommandQueue,
    pub unmap_event: Option<UserEvent>,
    pub callback_is_set: bool,
    pub is_unmapped: bool,
    pub policy: CompletionPolicy,
}

impl<T: OclPrm> View for MappedMem<T> {
    type V = MappedMemView;

    closed spec fn view(&self) -> MappedMemView {
        MappedMemView {
            ptr: self.ptr.spec_addr(),
            len: self.len,
            buffer: self.buffer,
            queue: self.queue,
            unmap_event: self.unmap_event,
            callback_is_set: self.callback_is_set,
            is_unmapped: self.is_unmapped,
            policy: self.policy,
        }
    }
}

/// The unmap command a still-mapped region hands out: the override queue
/// if one is given, the region's own buffer and pointer, the caller's
/// wait list passed through unchanged, and an event request whenever the
/// caller wants one or a completion event was registered at
/// construction.
pub open spec fn spec_unmap_command(
    v: MappedMemView,
    queue_override: Option<CommandQueue>,
    wait_list: Seq<Event>,
    request_event: bool,
) -> UnmapCommandView {
    UnmapCommandView {
        queue: match queue_override {
            Some(q) => q,
            None => v.queue,
        },
        buffer: v.buffer,
        mem_ptr: v.ptr,
        wait_list,
        request_event: request_event || v.unmap_event is Some,
    }
}

/// True while the host-visible window may still be read or written:
/// exactly until an unmap has been requested and queued.
pub open spec fn spec_slice_view_allowed(v: MappedMemView) -> bool {
    !v.is_unmapped
}

/// Law: the unmapped state is terminal, whatever state the region was
/// in.  A successful enqueue leaves the region unmapped; of an unmapped
/// region [`MappedMem::unmap`] promises exactly the contract-violation
/// error, and the slice view is no longer allowed, which
/// [`MappedMem::as_slice_parts`] demands as its precondition — so a
/// second unmap and any further window access are both ruled out.  The
/// unverified slice wrapper enforces the same gate at run time with a
/// fatal assertion.
pub proof fn lemma_unmap_is_terminal(before: MappedMemView)
    ensures
        (MappedMemView { is_unmapped: true, ..before }).is_unmapped,
        !spec_slice_view_allowed(MappedMemView { is_unmapped: true, ..before }),
        (MappedMemView { is_unmapped: true, ..before }).unmap_event == before.unmap_event,
        (MappedMemView { is_unmapped: true, ..before }).ptr == before.ptr,
{
}

impl<T: OclPrm> MappedMem<T> {
    /// Wraps a freshly mapped window.  A null base pointer is a driver
    /// failure the caller must rule out before constructing the region.
    pub fn new(
        ptr: usize,
        len: usize,
        unmap_event: Option<UserEvent>,
        buffer: Mem,
        queue: CommandQueue,
        policy: CompletionPolicy,
    ) -> (m: MappedMem<T>)
        requires
            ptr != 0,
        ensures
            m@ == (MappedMemView {
                ptr,
                len,
                buffer,
                queue,
                unmap_event,
                callback_is_set: false,
                is_unmapped: false,
                policy,
            }),
    {
        MappedMem {
            ptr: MappedMemPtr::new(ptr),
            len,
            buffer,
            queue,
            unmap_event,
            callback_is_set: false,
            is_unmapped: false,
            policy,
        }
    }

    /// Requests an unmap: returns the exact command for the native
    /// enqueue call, or a contract violation if the region was already
    /// unmapped.  `ewait` is the caller's wait list for the enqueue;
    /// `request_event` says whether the caller wants the new event
    /// handle back for its own bookkeeping.
    ///
    /// The state transitions only when the enqueue succeeds: report that
    /// with [`MappedMem::unmap_enqueued`].
    pub fn unmap(
        &self,
        queue: Option<&CommandQueue>,
        ewait: Option<&Vec<Event>>,
        request_event: bool,
    ) -> (r: OclResult<UnmapCommand>)
        ensures
            match r {
                Ok(cmd) => !self@.is_unmapped && cmd@ == spec_unmap_command(
                    self@,
                    match queue {
                        Some(q) => Some(*q),
                        None => None,
                    },
                    match ewait {
                        Some(w) => w@,
                        None => Seq::<Event>::empty(),
                    },
                    request_event,
                ),
                Err(e) => self@.is_unmapped && (e matches OclError::ContractViolation(m) && m@
                    == "MappedMem::unmap: Already unmapped."@),
            },
    {
        if self.is_unmapped {
            return Err(
                OclError::ContractViolation(
                    String::from_str("MappedMem::unmap: Already unmapped."),
                ),
            );
        }
        let cmd_queue = match queue {
            Some(q) => *q,
            None => self.queue,
        };
        let wait_list: Vec<Event> = match ewait {
            Some(w) => w.clone(),
            None => Vec::new(),
        };
        proof {
            assert(wait_list@ =~= (match ewait {
                Some(w) => w@,
                None => Seq::<Event>::empty(),
            }));
        }
        let request = request_event || self.unmap_event.is_some();
        Ok(
            UnmapCommand {
                queue: cmd_queue,
                buffer: self.buffer,
                mem_ptr: self.ptr.as_ptr(),
                wait_list,
                request_event: request,
            },
        )
    }

    /// Applies a successful unmap enqueue: the region becomes unmapped —
    /// meaning the unmap has been requested and queued, not that it has
    /// physically completed — whatever else happens.  The populated event
    /// placeholder, if one was requested, is validated and handed back
    /// for the caller's out-event slot; a placeholder the driver left
    /// null is reported as a native failure.
    pub fn unmap_enqueued(&mut self, new_event: Option<Event>) -> (r: OclResult<Option<Event>>)
        requires
            !old(self)@.is_unmapped,
        ensures
            final(self)@ == (MappedMemView { is_unmapped: true, ..old(self)@ }),
            match r {
                Ok(ev) => ev == new_event && (new_event matches Some(e) ==> e.raw != 0),
                Err(e) => new_event == Some(Event { raw: 0 }) && (e matches OclError::Native {
                    status,
                    message,
                } && status == 0 && message@ == "Event::validate: Null event."@),
            },
    {
        self.is_unmapped = true;
        match new_event {
            Some(ev) => {
                let validated = match ev.validate() {
                    Ok(v) => v,
                    Err(e) => {
                        return Err(e);
                    },
                };
                Ok(Some(validated))
            },
            None => Ok(None),
        }
    }

    /// Registers the completion trigger for the unmap event: returns what
    /// the driver's callback registration needs, namely the event to
    /// watch and the user-event word to signal.  Only one trigger may
    /// ever be handed out per region; a second attempt is an error and
    /// changes nothing.
    pub fn register_event_trigger(&mut self, event: &Event) -> (r: OclResult<EventTrigger>)
        requires
            old(self)@.is_unmapped,
            old(self)@.unmap_event is Some,
        ensures
            match r {
                Ok(t) => !old(self)@.callback_is_set && final(self)@ == (MappedMemView {
                    callback_is_set: true,
                    ..old(self)@
                }) && t.event == *event && t.user_data == old(self)@.unmap_event->0.raw,
                Err(e) => old(self)@.callback_is_set && final(self)@ == old(self)@ && (e
                    matches OclError::ContractViolation(m) && m@ == "Callback already set."@),
            },
    {
        if self.callback_is_set {
            return Err(OclError::ContractViolation(String::from_str("Callback already set.")));
        }
        let user_data = match &self.unmap_event {
            Some(ev) => ev.raw,
            None => 0,
        };
        self.callback_is_set = true;
        Ok(EventTrigger { event: *event, user_data })
    }

    /// Returns the completion event registered at construction, if any.
    pub fn get_unmap_event(&self) -> (r: Option<&UserEvent>)
        ensures
            match r {
                Some(ev) => self@.unmap_event == Some(*ev),
                None => self@.unmap_event is None,
            },
    {
        self.unmap_event.as_ref()
    }

    /// True once an unmap has been requested and queued.
    pub fn is_unmapped(&self) -> (b: bool)
        ensures
            b == self@.is_unmapped,
    {
        self.is_unmapped
    }

    /// The host-visible window, as a base address and element count, for
    /// building the actual slice.  Accessing the window of an unmapped
    /// region is a contract violation, so this demands a mapped region.
    pub fn as_slice_parts(&self) -> (r: (usize, usize))
        requires
            spec_slice_view_allowed(self@),
        ensures
            r.0 == self@.ptr,
            r.1 == self@.len,
    {
        (self.ptr.as_ptr(), self.len)
    }

    /// What the owner must do when the region reaches end of life, per
    /// the completion policy chosen at construction.
    pub fn drop_disposition(&self) -> (d: DropDisposition)
        ensures
            self@.is_unmapped ==> d == DropDisposition::AlreadyUnmapped,
            !self@.is_unmapped && self@.policy == CompletionPolicy::Deferred
                ==> d == DropDisposition::UnmapBestEffort,
            !self@.is_unmapped && self@.policy == CompletionPolicy::Eager
                ==> d == DropDisposition::Violation,
    {
        if self.is_unmapped {
            DropDisposition::AlreadyUnmapped
        } else {
            match self.policy {
                CompletionPolicy::Deferred => DropDisposition::UnmapBestEffort,
                CompletionPolicy::Eager => DropDisposition::Violation,
            }
        }
    }
}

/// Marks a region as unmapped without an enqueue, for the driver-facing
/// layer's own bookkeeping around raw unmap calls.
pub fn mapped_mem_set_unmapped<T: OclPrm>(mm: &mut MappedMem<T>)
    ensures
        final(mm)@ == (MappedMemView { is_unmapped: true, ..old(mm)@ }),
{
    mm.set_unmapped_flag();
}

/// Returns the raw host-pointer word of a mapped region.
pub fn mapped_mem_ptr<T: OclPrm>(mm: &MappedMem<T>) -> (p: usize)
    ensures
        p == mm@.ptr,
{
    mm.ptr_word()
}

impl<T: OclPrm> MappedMem<T> {
    fn set_unmapped_flag(&mut self)
        ensures
            final(self)@ == (MappedMemView { is_unmapped: true, ..old(self)@ }),
    {
        self.is_unmapped = true;
    }

    fn ptr_word(&self) -> (p: usize)
        ensures
            p == self@.ptr,
    {
        self.ptr.as_ptr()
    }
}

} // verus!
