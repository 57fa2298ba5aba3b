//! The allocator shim's policy: every allocation and deallocation request in
//! the process is decided here. Zero-size requests never reach the system
//! allocator in either direction; they are served by a fixed, non-null,
//! non-dereferenceable sentinel address. A failed system allocation is fatal.
//!
//! The decisions are pure functions from a request (and, for deallocation,
//! an address) to an action; the caller that sits next to the system
//! allocator carries each action out.

use vstd::prelude::*;

verus! {

/// One allocation request: the layout of the value to be placed.
pub struct AllocRequest {
    /// Number of bytes the value needs.
    pub size: usize,
    /// Alignment the value needs; always at least one.
    pub align: usize,
}

impl AllocRequest {
    /// A layout's alignment is never zero.
    pub open spec fn well_formed(self) -> bool {
        self.align >= 1
    }

    /// The sentinel address that stands for "no allocation" under this
    /// request: fixed, non-null, and never dereferenced. The alignment
    /// itself is used, the smallest non-null aligned address.
    pub open spec fn sentinel(self) -> usize {
        self.align
    }
}

/// What the shim does with an allocation request.
#[derive(PartialEq, Eq, Structural, Debug)]
pub enum AllocAction {
    /// Serve the request with the sentinel address; the system allocator is
    /// not involved.
    UseSentinel { addr: usize },
    /// Ask the system allocator for `size` bytes.
    CallSystem { size: usize },
}

/// What the shim does with a deallocation request.
#[derive(PartialEq, Eq, Structural, Debug)]
pub enum DeallocAction {
    /// Nothing to release; the system allocator is not involved.
    NoOp,
    /// Return the memory at `addr` to the system allocator.
    CallSystemFree { addr: usize },
}

/// How an address returned by the system allocator is to be treated.
#[derive(PartialEq, Eq, Structural, Debug)]
pub enum SystemReply {
    /// The system allocator produced this non-null address.
    Address { addr: usize },
    /// The system allocator could not satisfy the request. Unrecoverable:
    /// the computation must be aborted immediately, with no error value.
    Fatal,
}

/// Decides an allocation request: a zero-size request is served by the
/// sentinel and never reaches the system allocator; any other request is
/// forwarded to the system allocator for its size.
pub fn allocate(req: &AllocRequest) -> (a: AllocAction)
    requires
        req.well_formed(),
    ensures
        req.size == 0 ==> a == (AllocAction::UseSentinel { addr: req.sentinel() }),
        req.size != 0 ==> a == (AllocAction::CallSystem { size: req.size }),
        a matches AllocAction::UseSentinel { addr } ==> addr != 0,
{
    if req.size == 0 {
        AllocAction::UseSentinel { addr: req.align }
    } else {
        AllocAction::CallSystem { size: req.size }
    }
}

/// Classifies what the system allocator handed back: a null reply means the
/// request could not be satisfied, which is fatal; anything else is the
/// address of the new memory.
pub fn classify_reply(raw: usize) -> (r: SystemReply)
    ensures
        raw == 0 ==> r == SystemReply::Fatal,
        raw != 0 ==> r == (SystemReply::Address { addr: raw }),
{
    if raw == 0 {
        SystemReply::Fatal
    } else {
        SystemReply::Address { addr: raw }
    }
}

/// Decides a deallocation request: a zero-size request, a null address, or
/// the request's own sentinel releases nothing; any other address is
/// returned to the system allocator.
pub fn deallocate(addr: usize, req: &AllocRequest) -> (a: DeallocAction)
    requires
        req.well_formed(),
    ensures
        a == DeallocAction::NoOp <==> (req.size == 0 || addr == 0 || addr == req.sentinel()),
        !(req.size == 0 || addr == 0 || addr == req.sentinel()) ==> a == (
        DeallocAction::CallSystemFree { addr }),
{
    if req.size == 0 || addr == 0 || addr == req.align {
        DeallocAction::NoOp
    } else {
        DeallocAction::CallSystemFree { addr }
    }
}

} // verus!
