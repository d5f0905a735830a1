use vstd::prelude::*;

use super::state::{
    next_request_number, CaptureRequest, CaptureRequestIds, CaptureType,
};

verus! {

/// The scheduler's decision state, generic over the region of interest `R`,
/// the telemetry `T` and the GPS target `G` that it carries for its users.
pub struct SchedulerBackend<R, T, G> {
    /// Regions of interest that should be photographed as soon as possible.
    rois: Vec<R>,
    /// The current telemetry that decisions are based on; the frontend
    /// updates it as it receives new telemetry.
    telemetry: T,
    /// Whether it is time to create a capture request.
    time_for_capture: bool,
    /// The location that the gimbal is aimed at.
    gps: G,
    /// The source of capture request identities.
    request_ids: CaptureRequestIds,
}

/// The part of the scheduler that its decisions read and change.
pub struct SchedulerView {
    pub time_for_capture: bool,
    pub next_request: usize,
}

/// Asking for a capture request: if it is time for a capture, a fixed capture
/// request with the next identity, after which it is no longer time for one;
/// otherwise nothing.
pub open spec fn request_step(s: SchedulerView) -> (SchedulerView, Option<usize>) {
    if s.time_for_capture {
        (
            SchedulerView {
                time_for_capture: false,
                next_request: next_request_number(s.next_request),
            },
            Some(s.next_request),
        )
    } else {
        (s, None)
    }
}

/// Recording that the last capture request was answered: it is time for the
/// next capture.
pub open spec fn response_step(s: SchedulerView) -> SchedulerView {
    SchedulerView { time_for_capture: true, next_request: s.next_request }
}

impl<R, T, G> SchedulerBackend<R, T, G> {
    /// The decision state.
    pub closed spec fn view(&self) -> SchedulerView {
        SchedulerView {
            time_for_capture: self.time_for_capture,
            next_request: self.request_ids.next(),
        }
    }

    /// The regions of interest.
    pub closed spec fn spec_rois(&self) -> Seq<R> {
        self.rois@
    }

    /// The telemetry that decisions are based on.
    pub closed spec fn spec_telemetry(&self) -> T {
        self.telemetry
    }

    /// The location that the gimbal is aimed at.
    pub closed spec fn spec_gps(&self) -> G {
        self.gps
    }

    /// A scheduler aimed at `gps`, with no regions of interest, default
    /// telemetry, and a capture due at once.
    pub fn new(gps: G) -> (r: Self)
        where
            T: Default,
        ensures
            r.view() == (SchedulerView { time_for_capture: true, next_request: 0 }),
            r.spec_rois() == Seq::<R>::empty(),
            r.spec_gps() == gps,
    {
        SchedulerBackend {
            rois: Vec::new(),
            telemetry: T::default(),
            time_for_capture: true,
            gps,
            request_ids: CaptureRequestIds::new(),
        }
    }

    /// Replaces the telemetry that decisions are based on.
    pub fn update_telemetry(&mut self, telemetry: T)
        ensures
            final(self).spec_telemetry() == telemetry,
            final(self).view() == old(self).view(),
            final(self).spec_rois() == old(self).spec_rois(),
            final(self).spec_gps() == old(self).spec_gps(),
    {
        self.telemetry = telemetry;
    }

    /// A fixed capture request, if it is time for one.
    pub fn get_capture_request(&mut self) -> (r: Option<CaptureRequest<R>>)
        ensures
            final(self).view() == request_step(old(self).view()).0,
            match (r, request_step(old(self).view()).1) {
                (Some(req), Some(id)) => req.request_id.value() == id
                    && req.capture_type is Fixed,
                (None, None) => true,
                _ => false,
            },
            final(self).spec_telemetry() == old(self).spec_telemetry(),
            final(self).spec_rois() == old(self).spec_rois(),
            final(self).spec_gps() == old(self).spec_gps(),
    {
        if self.time_for_capture {
            self.time_for_capture = false;
            return Some(CaptureRequest::from_capture_type(CaptureType::Fixed, &mut self.request_ids));
        }
        None
    }

    /// Records that the last capture request was answered.
    pub fn set_capture_response(&mut self)
        ensures
            final(self).view() == response_step(old(self).view()),
            final(self).spec_telemetry() == old(self).spec_telemetry(),
            final(self).spec_rois() == old(self).spec_rois(),
            final(self).spec_gps() == old(self).spec_gps(),
    {
        self.time_for_capture = true;
    }

    /// The telemetry that decisions are based on.
    pub fn telemetry(&self) -> (r: &T)
        ensures
            *r == self.spec_telemetry(),
    {
        &self.telemetry
    }

    /// The location that the gimbal is aimed at.
    pub fn gps(&self) -> (r: &G)
        ensures
            *r == self.spec_gps(),
    {
        &self.gps
    }
}

/// At most one capture request is outstanding: once a request is handed out,
/// asking again gives nothing until the response is recorded.
pub proof fn lemma_one_request_outstanding(s: SchedulerView)
    ensures
        request_step(s).1 is Some ==> request_step(request_step(s).0).1 is None,
        request_step(response_step(s)).1 is Some,
{
}

/// Successive capture requests, each answered before the next, carry
/// different identities.
pub proof fn lemma_request_ids_distinct(s: SchedulerView)
    requires
        request_step(s).1 is Some,
    ensures
        request_step(response_step(request_step(s).0)).1 is Some,
        request_step(response_step(request_step(s).0)).1 != request_step(s).1,
{
}

/// A call on the scheduler, as its decisions see it.
pub enum SchedulerCall {
    UpdateTelemetry,
    GetCaptureRequest,
    SetCaptureResponse,
}

/// One call: the decision state after it, and the identity of the capture
/// request that it hands out, if any.
pub open spec fn call_step(s: SchedulerView, c: SchedulerCall) -> (SchedulerView, Option<usize>) {
    match c {
        SchedulerCall::UpdateTelemetry => (s, None),
        SchedulerCall::GetCaptureRequest => request_step(s),
        SchedulerCall::SetCaptureResponse => (response_step(s), None),
    }
}

/// A sequence of calls: the decision state after them, and for each call the
/// identity of the capture request that it hands out, if any.
pub open spec fn run_calls(s: SchedulerView, calls: Seq<SchedulerCall>) -> (
    SchedulerView,
    Seq<Option<usize>>,
)
    decreases calls.len(),
{
    if calls.len() == 0 {
        (s, Seq::empty())
    } else {
        let (mid, outs) = run_calls(s, calls.drop_last());
        let (next, o) = call_step(mid, calls.last());
        (next, outs.push(o))
    }
}

proof fn lemma_run_calls_inv(s: SchedulerView, calls: Seq<SchedulerCall>)
    ensures
        ({
            let (f, outs) = run_calls(s, calls);
            &&& outs.len() == calls.len()
            &&& forall|i: int|
                0 <= i < outs.len() && #[trigger] outs[i] is Some ==> calls[i] is GetCaptureRequest
            &&& forall|i: int, j: int|
                0 <= i < j < outs.len() && #[trigger] outs[i] is Some && #[trigger] outs[j] is Some
                    ==> exists|k: int| i < k < j && #[trigger] calls[k] is SetCaptureResponse
            &&& f.time_for_capture ==> forall|i: int|
                0 <= i < outs.len() && #[trigger] outs[i] is Some ==> exists|k: int|
                    i < k < outs.len() && #[trigger] calls[k] is SetCaptureResponse
            &&& s.next_request + calls.len() <= usize::MAX ==> {
                &&& s.next_request <= f.next_request <= s.next_request + calls.len()
                &&& forall|i: int|
                    0 <= i < outs.len() && #[trigger] outs[i] is Some ==> s.next_request
                        <= outs[i]->0 < f.next_request
                &&& forall|i: int, j: int|
                    0 <= i < j < outs.len() && #[trigger] outs[i] is Some && #[trigger] outs[j] is Some
                        ==> outs[i]->0 < outs[j]->0
            }
        }),
    decreases calls.len(),
{
    if calls.len() > 0 {
        let prefix = calls.drop_last();
        lemma_run_calls_inv(s, prefix);
        let (mid, outs0) = run_calls(s, prefix);
        let (f, outs) = run_calls(s, calls);
        let n = outs0.len() as int;
        assert(outs =~= outs0.push(call_step(mid, calls.last()).1));
        assert forall|i: int| 0 <= i < n implies outs[i] == outs0[i] && calls[i] == prefix[i] by {}
        match calls.last() {
            SchedulerCall::SetCaptureResponse => {
                assert(calls[n] is SetCaptureResponse);
                assert forall|i: int| 0 <= i < outs.len() && #[trigger] outs[i] is Some implies exists|k: int|
                    i < k < outs.len() && #[trigger] calls[k] is SetCaptureResponse by {
                    assert(i < n);
                    assert(calls[n] is SetCaptureResponse);
                }
                assert forall|i: int, j: int|
                    0 <= i < j < outs.len() && #[trigger] outs[i] is Some && #[trigger] outs[j] is Some
                    implies exists|k: int| i < k < j && #[trigger] calls[k] is SetCaptureResponse by {
                    assert(j < n);
                    assert(outs0[i] is Some && outs0[j] is Some);
                    let k = choose|k: int| i < k < j && #[trigger] prefix[k] is SetCaptureResponse;
                    assert(calls[k] == prefix[k]);
                }
            },
            SchedulerCall::UpdateTelemetry => {
                assert forall|i: int| 0 <= i < outs.len() && #[trigger] outs[i] is Some && f.time_for_capture
                    implies exists|k: int| i < k < outs.len() && #[trigger] calls[k] is SetCaptureResponse by {
                    assert(i < n);
                    assert(outs0[i] is Some);
                    let k = choose|k: int| i < k < n && #[trigger] prefix[k] is SetCaptureResponse;
                    assert(calls[k] == prefix[k]);
                }
                assert forall|i: int, j: int|
                    0 <= i < j < outs.len() && #[trigger] outs[i] is Some && #[trigger] outs[j] is Some
                    implies exists|k: int| i < k < j && #[trigger] calls[k] is SetCaptureResponse by {
                    assert(j < n);
                    assert(outs0[i] is Some && outs0[j] is Some);
                    let k = choose|k: int| i < k < j && #[trigger] prefix[k] is SetCaptureResponse;
                    assert(calls[k] == prefix[k]);
                }
            },
            SchedulerCall::GetCaptureRequest => {
                assert(calls[n] is GetCaptureRequest);
                if mid.time_for_capture {
                    assert forall|i: int, j: int|
                        0 <= i < j < outs.len() && #[trigger] outs[i] is Some && #[trigger] outs[j] is Some
                        implies exists|k: int| i < k < j && #[trigger] calls[k] is SetCaptureResponse by {
                        assert(outs0.len() == n);
                        assert(i < n);
                        assert(outs0[i] is Some);
                        if j < n {
                            assert(outs0[j] is Some);
                            let k = choose|k: int| i < k < j && #[trigger] prefix[k] is SetCaptureResponse;
                            assert(calls[k] == prefix[k]);
                        } else {
                            let k = choose|k: int| i < k < n && #[trigger] prefix[k] is SetCaptureResponse;
                            assert(calls[k] == prefix[k]);
                        }
                    }
                } else {
                    assert forall|i: int, j: int|
                        0 <= i < j < outs.len() && #[trigger] outs[i] is Some && #[trigger] outs[j] is Some
                        implies exists|k: int| i < k < j && #[trigger] calls[k] is SetCaptureResponse by {
                        assert(j < n);
                        assert(outs0[i] is Some && outs0[j] is Some);
                        let k = choose|k: int| i < k < j && #[trigger] prefix[k] is SetCaptureResponse;
                        assert(calls[k] == prefix[k]);
                    }
                    assert forall|i: int| 0 <= i < outs.len() && #[trigger] outs[i] is Some && f.time_for_capture
                        implies exists|k: int| i < k < outs.len() && #[trigger] calls[k] is SetCaptureResponse by {
                    }
                }
            },
        }
    }
}

/// Over any sequence of calls on a scheduler, only the calls that ask for a
/// capture request hand one out, and between any two capture requests that
/// are handed out the response to a request is recorded. Each request that
/// `get_capture_request` hands out is a fixed capture, by its own contract.
pub proof fn lemma_capture_requests_alternate(s: SchedulerView, calls: Seq<SchedulerCall>)
    ensures
        ({
            let outs = run_calls(s, calls).1;
            &&& outs.len() == calls.len()
            &&& forall|i: int|
                0 <= i < outs.len() && #[trigger] outs[i] is Some ==> calls[i] is GetCaptureRequest
            &&& forall|i: int, j: int|
                0 <= i < j < outs.len() && #[trigger] outs[i] is Some && #[trigger] outs[j] is Some
                    ==> exists|k: int| i < k < j && #[trigger] calls[k] is SetCaptureResponse
        }),
{
    lemma_run_calls_inv(s, calls);
}

/// Over any sequence of calls on a scheduler, the capture requests handed out
/// carry pairwise distinct identities, in increasing order, as long as the
/// identities cannot wrap around within the sequence.
pub proof fn lemma_capture_request_ids_distinct(s: SchedulerView, calls: Seq<SchedulerCall>)
    requires
        s.next_request + calls.len() <= usize::MAX,
    ensures
        ({
            let outs = run_calls(s, calls).1;
            forall|i: int, j: int|
                0 <= i < j < outs.len() && #[trigger] outs[i] is Some && #[trigger] outs[j] is Some
                    ==> outs[i]->0 < outs[j]->0
        }),
{
    lemma_run_calls_inv(s, calls);
}

} // verus!
