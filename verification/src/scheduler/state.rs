use vstd::prelude::*;

verus! {

/// The identity of a capture request.
#[derive(Clone, Copy, Debug, PartialEq, Eq, Structural)]
pub struct CaptureRequestId(usize);

/// Hands out capture request identities in increasing order, wrapping at the
/// end of the `usize` range.
#[derive(Debug)]
pub struct CaptureRequestIds {
    next: usize,
}

/// The identity that follows `n`.
pub open spec fn next_request_number(n: usize) -> usize {
    if n == usize::MAX {
        0
    } else {
        (n + 1) as usize
    }
}

impl CaptureRequestIds {
    /// The number of the next identity to be handed out.
    pub closed spec fn next(&self) -> usize {
        self.next
    }

    /// A source whose first identity is 0.
    pub fn new() -> (r: CaptureRequestIds)
        ensures
            r.next() == 0,
    {
        CaptureRequestIds { next: 0 }
    }
}

impl CaptureRequestId {
    /// The number of this identity.
    pub closed spec fn value(&self) -> usize {
        self.0
    }

    /// The number of this identity.
    pub fn number(&self) -> (r: usize)
        ensures
            r == self.value(),
    {
        self.0
    }

    /// A fresh identity: the next number of `ids`, which then moves on.
    pub fn new(ids: &mut CaptureRequestIds) -> (r: CaptureRequestId)
        ensures
            r.value() == old(ids).next(),
            final(ids).next() == next_request_number(old(ids).next()),
    {
        let id = ids.next;
        ids.next = if ids.next == usize::MAX {
            0
        } else {
            ids.next + 1
        };
        CaptureRequestId(id)
    }
}

/// What to photograph: the area below the plane, or a region of interest.
#[derive(Clone, Copy, Debug)]
pub enum CaptureType<R> {
    Fixed,
    Tracking(R),
}

/// A request for the camera to take a picture.
#[derive(Clone, Copy, Debug)]
pub struct CaptureRequest<R> {
    pub request_id: CaptureRequestId,
    pub capture_type: CaptureType<R>,
}

impl<R> CaptureRequest<R> {
    /// A request of the given type with a fresh identity.
    pub fn from_capture_type(capture_type: CaptureType<R>, ids: &mut CaptureRequestIds) -> (r:
        CaptureRequest<R>)
        ensures
            r.request_id.value() == old(ids).next(),
            r.capture_type == capture_type,
            final(ids).next() == next_request_number(old(ids).next()),
    {
        CaptureRequest { request_id: CaptureRequestId::new(ids), capture_type }
    }
}

/// The answer to a capture request.
#[derive(Clone, Copy, Debug)]
pub struct CaptureResponse {
    request_id: usize,
}

impl CaptureResponse {
    /// The answer to the request with the given identity.
    pub fn new(request_id: CaptureRequestId) -> (r: CaptureResponse)
        ensures
            r.request() == request_id.value(),
    {
        CaptureResponse { request_id: request_id.0 }
    }

    /// The number of the request that this answers.
    pub closed spec fn request(&self) -> usize {
        self.request_id
    }
}

} // verus!
