use std::collections::HashMap;

use vstd::prelude::*;

use crate::api::{RequestEnvelope, RequestEvent, RequestId, ResponseEnvelope, ResponseEvent};

verus! {

/// Number of records that the history keeps after it is cut back; it may
/// grow to twice as many before that.
pub const HISTORY_SIZE: usize = 100;

/// A request that was sent and has not been answered yet.
pub struct InFlightEntry {
    /// When the request was sent, in milliseconds of the session clock.
    pub requested_at: u64,
    pub request: RequestEvent,
}

/// One completed request, kept for display.
pub struct TransportResult {
    pub request: RequestEvent,
    /// The payload, or a summary of the backend failure.
    pub response: Result<ResponseEvent, String>,
    pub request_send: u64,
    pub response_received: u64,
}

impl TransportResult {
    pub open spec fn spec_elapsed(&self) -> u64 {
        if self.response_received >= self.request_send {
            (self.response_received - self.request_send) as u64
        } else {
            0
        }
    }

    /// Time from sending to the answer, in milliseconds.
    pub fn elapsed(&self) -> (r: u64)
        ensures
            r == self.spec_elapsed(),
    {
        if self.response_received >= self.request_send {
            self.response_received - self.request_send
        } else {
            0
        }
    }
}

/// What the status line shows: how many requests are in flight, and the
/// completed ones, newest first.
pub struct TransportStats {
    in_flight_requests: usize,
    history: Vec<TransportResult>,
}

impl TransportStats {
    pub closed spec fn spec_in_flight_requests(&self) -> nat {
        self.in_flight_requests as nat
    }

    pub closed spec fn spec_history(&self) -> Seq<TransportResult> {
        self.history@
    }

    fn new() -> (r: TransportStats)
        ensures
            r.spec_in_flight_requests() == 0,
            r.spec_history() == Seq::<TransportResult>::empty(),
    {
        TransportStats { in_flight_requests: 0, history: Vec::new() }
    }

    pub fn in_flight_requests(&self) -> (r: usize)
        ensures
            r == self.spec_in_flight_requests(),
    {
        self.in_flight_requests
    }

    /// The most recent completed request.
    pub fn latest_transport(&self) -> (r: Option<&TransportResult>)
        ensures
            r is None <==> self.spec_history().len() == 0,
            r matches Some(t) ==> *t == self.spec_history()[0],
    {
        if self.history.len() == 0 {
            None
        } else {
            Some(&self.history[0])
        }
    }

    /// The completed requests, newest first.
    pub fn history(&self) -> (r: &Vec<TransportResult>)
        ensures
            r@ == self.spec_history(),
    {
        &self.history
    }
}

/// The history after `t` is put in front, cut back to `HISTORY_SIZE`
/// records when it has grown past twice that.
pub open spec fn pushed_history(h: Seq<TransportResult>, t: TransportResult) -> Seq<
    TransportResult,
> {
    let p = seq![t].add(h);
    if p.len() > 2 * HISTORY_SIZE {
        p.subrange(0, HISTORY_SIZE as int)
    } else {
        p
    }
}

/// `t` records the answer `res`, received at `now`, to the request of `entry`.
pub open spec fn records(t: TransportResult, entry: InFlightEntry, res: ResponseEnvelope, now: u64) -> bool {
    &&& t.request == entry.request
    &&& t.request_send == entry.requested_at
    &&& t.response_received == now
    &&& (t.response is Ok <==> res.result is Ok)
    &&& (res.result matches Err(m) ==> t.response == Err::<ResponseEvent, String>(m))
    &&& (res.result matches Ok(ev) ==> (t.response matches Ok(e) && e.same_payload(&ev)))
}

/// A response that matches no request in flight.
#[derive(Debug, Clone, Copy, PartialEq, Eq, Structural)]
pub enum TransportError {
    UnknownRequest(RequestId),
}

/// Assigns request identifiers, keeps the requests in flight and matches
/// each response to its request.
pub struct TransportController {
    stats: TransportStats,
    in_flights: HashMap<u64, InFlightEntry>,
    next_request_id: RequestId,
}

impl TransportController {
    pub closed spec fn spec_in_flights(&self) -> Map<u64, InFlightEntry> {
        self.in_flights@
    }

    pub closed spec fn spec_next_id(&self) -> u64 {
        self.next_request_id.0
    }

    pub closed spec fn spec_stats(&self) -> TransportStats {
        self.stats
    }

    pub open spec fn spec_in_flight_count(&self) -> nat {
        self.spec_stats().spec_in_flight_requests()
    }

    pub open spec fn spec_history(&self) -> Seq<TransportResult> {
        self.spec_stats().spec_history()
    }

    /// The count shown is the number of requests in flight, each request in
    /// flight has an identifier below the next one (identifiers stop at the
    /// largest `u64`), and the history holds at most twice `HISTORY_SIZE`
    /// records.
    pub open spec fn wf(&self) -> bool {
        &&& self.spec_in_flights().dom().finite()
        &&& self.spec_in_flight_count() == self.spec_in_flights().len()
        &&& forall|k: u64|
            #[trigger] self.spec_in_flights().contains_key(k) ==> k < self.spec_next_id() || k
                == u64::MAX
        &&& self.spec_history().len() <= 2 * HISTORY_SIZE
    }

    /// What `send_request` does: `req` goes out under the next identifier,
    /// which is recorded as in flight since `now`.
    pub open spec fn send_step(
        pre: TransportController,
        post: TransportController,
        req: RequestEvent,
        now: u64,
        r: RequestEnvelope,
    ) -> bool {
        &&& post.wf()
        &&& r.request_id == RequestId(pre.spec_next_id())
        &&& r.event == req
        &&& post.spec_in_flights() == pre.spec_in_flights().insert(
            pre.spec_next_id(),
            InFlightEntry { requested_at: now, request: req },
        )
        &&& post.spec_next_id() == (if pre.spec_next_id() < u64::MAX {
            (pre.spec_next_id() + 1) as u64
        } else {
            u64::MAX
        })
        &&& pre.spec_next_id() < u64::MAX ==> post.spec_in_flight_count()
            == pre.spec_in_flight_count() + 1
        &&& post.spec_history() == pre.spec_history()
    }

    /// What `recv_response` does: an answer to a request in flight takes it
    /// out of flight, is recorded at the front of the history and is handed
    /// back; any other answer is refused and changes nothing.
    pub open spec fn recv_step(
        pre: TransportController,
        post: TransportController,
        res: ResponseEnvelope,
        now: u64,
        r: Result<ResponseEnvelope, TransportError>,
    ) -> bool {
        let id = res.request_id.0;
        &&& post.wf()
        &&& if pre.spec_in_flights().contains_key(id) {
            &&& r == Ok::<ResponseEnvelope, TransportError>(res)
            &&& post.spec_in_flights() == pre.spec_in_flights().remove(id)
            &&& post.spec_in_flight_count() + 1 == pre.spec_in_flight_count()
            &&& post.spec_next_id() == pre.spec_next_id()
            &&& post.spec_history().len() > 0
            &&& records(post.spec_history()[0], pre.spec_in_flights()[id], res, now)
            &&& post.spec_history() == pushed_history(pre.spec_history(), post.spec_history()[0])
        } else {
            &&& r == Err::<ResponseEnvelope, TransportError>(
                TransportError::UnknownRequest(res.request_id),
            )
            &&& post.spec_in_flights() == pre.spec_in_flights()
            &&& post.spec_next_id() == pre.spec_next_id()
            &&& post.spec_stats() == pre.spec_stats()
        }
    }

    pub fn new() -> (r: TransportController)
        ensures
            r.wf(),
            r.spec_in_flights() == Map::<u64, InFlightEntry>::empty(),
            r.spec_next_id() == 0,
            r.spec_history() == Seq::<TransportResult>::empty(),
    {
        TransportController {
            stats: TransportStats::new(),
            in_flights: HashMap::new(),
            next_request_id: RequestId(0),
        }
    }

    /// What `send_requests` does: each request goes out in turn under the
    /// next identifier and is in flight since `now`; below the largest
    /// identifier, the identifiers are consecutive and each is new.
    pub open spec fn batch_step(
        pre: TransportController,
        post: TransportController,
        reqs: Seq<RequestEvent>,
        now: u64,
        envs: Seq<RequestEnvelope>,
    ) -> bool {
        let n0 = pre.spec_next_id() as int;
        let k = reqs.len() as int;
        &&& post.wf()
        &&& envs.len() == reqs.len()
        &&& forall|i: int| 0 <= i < k ==> (#[trigger] envs[i]).event == reqs[i]
        &&& post.spec_history() == pre.spec_history()
        &&& n0 + k < u64::MAX ==> {
            &&& forall|i: int| 0 <= i < k ==> (#[trigger] envs[i]).request_id.0 == n0 + i
            &&& post.spec_next_id() == n0 + k
            &&& post.spec_in_flight_count() == pre.spec_in_flight_count() + k
            &&& forall|id: u64|
                #[trigger] post.spec_in_flights().contains_key(id) <==> (pre.spec_in_flights().contains_key(id)
                    || (n0 <= id < n0 + k))
            &&& forall|id: u64|
                n0 <= id < n0 + k ==> #[trigger] post.spec_in_flights()[id] == (InFlightEntry {
                    requested_at: now,
                    request: reqs[id - n0],
                })
            &&& forall|id: u64|
                #[trigger] pre.spec_in_flights().contains_key(id) ==> !(n0 <= id < n0 + k)
                    && post.spec_in_flights()[id] == pre.spec_in_flights()[id]
        }
    }

    /// Sends each request in turn; the envelopes come back in the same order.
    pub fn send_requests(&mut self, reqs: Vec<RequestEvent>, now: u64) -> (r: Vec<RequestEnvelope>)
        requires
            old(self).wf(),
        ensures
            Self::batch_step(*old(self), *final(self), reqs@, now, r@),
    {
        let ghost rs = reqs@;
        let ghost n0 = old(self).spec_next_id() as int;
        let mut out: Vec<RequestEnvelope> = Vec::new();
        let mut rest = reqs;
        while rest.len() > 0
            invariant
                rs == reqs@,
                n0 == old(self).spec_next_id() as int,
                old(self).wf(),
                self.wf(),
                out@.len() <= rs.len(),
                rest@ == rs.subrange(out@.len() as int, rs.len() as int),
                forall|i: int| 0 <= i < out@.len() ==> (#[trigger] out@[i]).event == rs[i],
                self.spec_history() == old(self).spec_history(),
                n0 + rs.len() < u64::MAX ==> {
                    &&& self.spec_next_id() == n0 + out@.len()
                    &&& forall|i: int|
                        0 <= i < out@.len() ==> (#[trigger] out@[i]).request_id.0 == n0 + i
                    &&& self.spec_in_flight_count() == old(self).spec_in_flight_count()
                        + out@.len()
                    &&& forall|id: u64|
                        #[trigger] self.spec_in_flights().contains_key(id) <==> (old(self).spec_in_flights().contains_key(id)
                            || (n0 <= id < n0 + out@.len()))
                    &&& forall|id: u64|
                        n0 <= id < n0 + out@.len() ==> #[trigger] self.spec_in_flights()[id] == (InFlightEntry {
                            requested_at: now,
                            request: rs[id - n0],
                        })
                    &&& forall|id: u64|
                        #[trigger] old(self).spec_in_flights().contains_key(id) ==> !(n0 <= id < n0 + rs.len())
                            && self.spec_in_flights()[id] == old(self).spec_in_flights()[id]
                },
            decreases rest.len(),
        {
            let req = rest.remove(0);
            let env = self.send_request(req, now);
            out.push(env);
        }
        out
    }

    /// Sends `req` at time `now`: allocates the next identifier and records
    /// the request as in flight. The envelope goes to the dispatcher.
    pub fn send_request(&mut self, req: RequestEvent, now: u64) -> (r: RequestEnvelope)
        requires
            old(self).wf(),
        ensures
            Self::send_step(*old(self), *final(self), req, now, r),
    {
        let request_id = self.request_id();
        let entry = InFlightEntry { requested_at: now, request: req.duplicate() };
        self.in_flights.insert(request_id.0, entry);
        self.stats.in_flight_requests = self.in_flights.len();
        RequestEnvelope { request_id, event: req }
    }

    /// Matches a response, received at time `now`, to its request.
    pub fn recv_response(&mut self, res: ResponseEnvelope, now: u64) -> (r: Result<
        ResponseEnvelope,
        TransportError,
    >)
        requires
            old(self).wf(),
        ensures
            Self::recv_step(*old(self), *final(self), res, now, r),
    {
        let id = res.request_id.0;
        match self.in_flights.remove(&id) {
            Some(entry) => {
                self.stats.in_flight_requests = self.in_flights.len();
                let response = match &res.result {
                    Ok(event) => Ok(event.duplicate()),
                    Err(m) => Err(m.clone()),
                };
                let t = TransportResult {
                    request: entry.request,
                    response,
                    request_send: entry.requested_at,
                    response_received: now,
                };
                self.save_transport(t);
                Ok(res)
            },
            None => {
                assert(self.in_flights@ =~= old(self).in_flights@);
                Err(TransportError::UnknownRequest(res.request_id))
            },
        }
    }

    pub fn stats(&self) -> (r: &TransportStats)
        ensures
            *r == self.spec_stats(),
    {
        &self.stats
    }

    /// Puts `transport` at the front of the history, cut back to
    /// `HISTORY_SIZE` records when it has grown past twice that.
    pub fn save_transport(&mut self, transport: TransportResult)
        requires
            old(self).wf(),
        ensures
            final(self).wf(),
            final(self).spec_history() == pushed_history(old(self).spec_history(), transport),
            final(self).spec_history()[0] == transport,
            forall|i: int|
                1 <= i < final(self).spec_history().len() ==> #[trigger] final(self).spec_history()[i]
                    == old(self).spec_history()[i - 1],
            final(self).spec_history().len() == (if old(self).spec_history().len() + 1 > 2
                * HISTORY_SIZE {
                HISTORY_SIZE as int
            } else {
                old(self).spec_history().len() + 1int
            }),
            final(self).spec_history().len() <= 2 * HISTORY_SIZE,
            final(self).spec_in_flights() == old(self).spec_in_flights(),
            final(self).spec_next_id() == old(self).spec_next_id(),
            final(self).spec_in_flight_count() == old(self).spec_in_flight_count(),
    {
        let ghost t = transport;
        self.stats.history.insert(0, transport);
        assert(self.stats.history@ =~= seq![t].add(old(self).stats.history@));
        if self.stats.history.len() > 2 * HISTORY_SIZE {
            self.stats.history.truncate(HISTORY_SIZE);
        }
    }

    /// Takes the next identifier; it stops at the largest `u64`.
    pub fn request_id(&mut self) -> (r: RequestId)
        requires
            old(self).wf(),
        ensures
            final(self).wf(),
            r == RequestId(old(self).spec_next_id()),
            final(self).spec_next_id() == (if old(self).spec_next_id() < u64::MAX {
                (old(self).spec_next_id() + 1) as u64
            } else {
                u64::MAX
            }),
            r.0 < u64::MAX ==> r.0 < final(self).spec_next_id(),
            final(self).spec_stats() == old(self).spec_stats(),
            final(self).spec_in_flights() == old(self).spec_in_flights(),
    {
        let id = self.next_request_id;
        self.next_request_id = RequestId(id.0.saturating_add(1));
        id
    }
}

/// Each identifier that `send_request` hands out is new among the requests
/// in flight, and a later send hands out a larger one, as long as the
/// identifiers are not exhausted.
pub proof fn lemma_request_ids_increase(
    c0: TransportController,
    c1: TransportController,
    c2: TransportController,
    req1: RequestEvent,
    req2: RequestEvent,
    now1: u64,
    now2: u64,
    e1: RequestEnvelope,
    e2: RequestEnvelope,
)
    requires
        c0.wf(),
        TransportController::send_step(c0, c1, req1, now1, e1),
        TransportController::send_step(c1, c2, req2, now2, e2),
        c0.spec_next_id() < u64::MAX,
    ensures
        !c0.spec_in_flights().contains_key(e1.request_id.0),
        e1.request_id.0 < e2.request_id.0,
{
}

/// A response is handed back only if its request was in flight; that takes
/// the request out of flight, so the same identifier is refused the second
/// time.
pub proof fn lemma_response_matched_once(
    c0: TransportController,
    c1: TransportController,
    c2: TransportController,
    res1: ResponseEnvelope,
    res2: ResponseEnvelope,
    now1: u64,
    now2: u64,
    r1: Result<ResponseEnvelope, TransportError>,
    r2: Result<ResponseEnvelope, TransportError>,
)
    requires
        c0.wf(),
        TransportController::recv_step(c0, c1, res1, now1, r1),
        TransportController::recv_step(c1, c2, res2, now2, r2),
        res2.request_id == res1.request_id,
    ensures
        r1 is Ok ==> c0.spec_in_flights().contains_key(res1.request_id.0),
        r1 is Ok ==> !c1.spec_in_flights().contains_key(res1.request_id.0),
        r1 is Ok ==> r2 is Err,
        r2 is Ok ==> r1 is Err,
{
}

/// The history never holds more than twice `HISTORY_SIZE` records; when a
/// record would take it past that, it is cut back to `HISTORY_SIZE`, with
/// the new record first.
pub proof fn lemma_history_bounded(
    c0: TransportController,
    c1: TransportController,
    res: ResponseEnvelope,
    now: u64,
    r: Result<ResponseEnvelope, TransportError>,
)
    requires
        c0.wf(),
        TransportController::recv_step(c0, c1, res, now, r),
    ensures
        c1.spec_history().len() <= 2 * HISTORY_SIZE,
        r is Ok && c0.spec_history().len() == 2 * HISTORY_SIZE ==> c1.spec_history().len()
            == HISTORY_SIZE,
        r is Ok && c0.spec_history().len() < 2 * HISTORY_SIZE ==> c1.spec_history().len()
            == c0.spec_history().len() + 1,
        r is Ok ==> forall|i: int|
            1 <= i < c1.spec_history().len() ==> #[trigger] c1.spec_history()[i]
                == c0.spec_history()[i - 1],
{
}

} // verus!
