//! Correlation of outbound requests with their responses.
//!
//! Every request sent to a peer gets an id from that peer's counter and is
//! remembered, with the time it was sent, until its response arrives, the peer
//! goes away, or it has waited longer than a timeout.

use crate::request_log::{
    is_expired, is_live, is_other_request, is_to_other_peer, lemma_filter_keeps_wf,
    lemma_issue_is_fresh, request_key, PendingRequest, RequestLog,
};
use crate::seq_filter::{lemma_filter_keeps_all, lemma_filter_push};
use crate::types::PeerId;
use std::collections::HashMap;
use vstd::prelude::*;

verus! {

broadcast use vstd::std_specs::hash::group_hash_axioms;

/// Time after which an unanswered request is given up, in seconds.
pub const REQUEST_TIMEOUT: u64 = 30;

/// Time a peer has to complete its handshake after connecting, in seconds.
pub const HELLO_TIMEOUT: u64 = 30;

/// Tracks the requests that were sent and not answered, and hands out the ids
/// under which they are sent.
pub struct RequestTracker {
    /// The next unused id of every peer that was sent a request.
    request_ids: HashMap<PeerId, u64>,
    /// The unanswered requests, in the order in which they were sent.
    requests: Vec<PendingRequest>,
}

impl View for RequestTracker {
    type V = RequestLog;

    closed spec fn view(&self) -> RequestLog {
        RequestLog { next_ids: self.request_ids@, pending: self.requests@ }
    }
}

impl RequestTracker {
    /// A tracker that has sent nothing.
    pub fn new() -> (tracker: RequestTracker)
        ensures
            tracker@ == RequestLog::empty(),
            tracker@.wf(),
    {
        let tracker = RequestTracker { request_ids: HashMap::new(), requests: Vec::new() };
        assert(tracker@.pending =~= Seq::empty());
        tracker
    }

    /// The id that the next request to `peer_id` will get.
    pub fn peek_next_id(&self, peer_id: PeerId) -> (id: u64)
        ensures
            id == self@.next_unused(peer_id),
    {
        match self.request_ids.get(&peer_id) {
            Some(next) => *next,
            None => 0,
        }
    }

    /// The number of unanswered requests.
    pub fn pending_count(&self) -> (count: usize)
        ensures
            count == self@.pending.len(),
    {
        self.requests.len()
    }

    /// Whether the request `id` to `peer_id` is unanswered.
    pub fn is_pending(&self, peer_id: PeerId, id: u64) -> (pending: bool)
        ensures
            pending == self@.is_pending(peer_id, id),
    {
        self.position(peer_id, id).is_some()
    }

    /// The place of the request `id` to `peer_id` among the unanswered ones.
    fn position(&self, peer_id: PeerId, id: u64) -> (place: Option<usize>)
        ensures
            match place {
                Some(i) => i < self@.pending.len() && self@.pending[i as int].peer_id == peer_id
                    && self@.pending[i as int].id == id,
                None => !self@.is_pending(peer_id, id),
            },
    {
        let mut i: usize = 0;
        while i < self.requests.len()
            invariant
                i <= self.requests.len(),
                forall|k: int|
                    0 <= k < i ==> !((#[trigger] self.requests@[k]).peer_id == peer_id
                        && self.requests@[k].id == id),
            decreases self.requests.len() - i,
        {
            if self.requests[i].peer_id == peer_id && self.requests[i].id == id {
                return Some(i);
            }
            i += 1;
        }
        None
    }

    /// Hands out the next unused id of `peer_id` and records a request under
    /// it as sent at time `now`.
    pub fn next_id(&mut self, peer_id: PeerId, now: u64) -> (id: u64)
        requires
            old(self)@.next_unused(peer_id) < u64::MAX,
        ensures
            id == old(self)@.next_unused(peer_id),
            final(self)@ == old(self)@.issue(peer_id, now),
            old(self)@.wf() ==> final(self)@.wf(),
    {
        proof {
            if self@.wf() {
                lemma_issue_is_fresh(self@, peer_id, now);
            }
        }
        let id = self.peek_next_id(peer_id);
        self.request_ids.insert(peer_id, id + 1);
        self.requests.push(PendingRequest { peer_id, id, sent_at: now });
        id
    }

    /// Takes the request `id` to `peer_id` off the unanswered ones and says
    /// whether it was there.
    pub fn resolve(&mut self, peer_id: PeerId, id: u64) -> (found: bool)
        ensures
            found == old(self)@.is_pending(peer_id, id),
            final(self)@ == old(self)@.resolve(peer_id, id),
            !found ==> final(self)@ == old(self)@,
            old(self)@.wf() ==> final(self)@.wf(),
    {
        let ghost before = self@;
        let ghost keep = is_other_request(peer_id, id);
        let ghost mut seen: int = 0;
        let mut found = false;
        let mut i: usize = 0;
        proof {
            assert(before.pending.take(0) =~= Seq::<PendingRequest>::empty());
            lemma_filter_keeps_all(Seq::<PendingRequest>::empty(), keep);
            assert(before.pending.skip(0) =~= before.pending);
        }
        while i < self.requests.len()
            invariant
                0 <= seen <= before.pending.len(),
                i == before.pending.take(seen).filter(keep).len(),
                self.requests@ == before.pending.take(seen).filter(keep) + before.pending.skip(
                    seen,
                ),
                self.request_ids@ == before.next_ids,
                keep == is_other_request(peer_id, id),
                found <==> exists|k: int|
                    0 <= k < seen && (#[trigger] before.pending[k]).peer_id == peer_id
                        && before.pending[k].id == id,
            decreases before.pending.len() - seen,
        {
            let r = self.requests[i];
            proof {
                assert(r == before.pending[seen]);
                assert(before.pending.take(seen + 1) =~= before.pending.take(seen).push(r));
                lemma_filter_push(before.pending.take(seen), keep, r);
            }
            if r.peer_id == peer_id && r.id == id {
                self.requests.remove(i);
                found = true;
            } else {
                i += 1;
            }
            proof {
                assert(self.requests@ =~= before.pending.take(seen + 1).filter(keep)
                    + before.pending.skip(seen + 1));
                seen = seen + 1;
            }
        }
        proof {
            assert(before.pending.take(seen) =~= before.pending);
            assert(self.requests@ =~= before.pending.filter(keep));
            if !found {
                lemma_filter_keeps_all(before.pending, keep);
            }
            if before.wf() {
                lemma_filter_keeps_wf(before, keep);
            }
        }
        found
    }

    /// Takes off every request that has, at time `now`, waited longer than
    /// `timeout`, and returns them in the order in which they were sent.
    pub fn reap(&mut self, now: u64, timeout: u64) -> (reaped: Vec<(PeerId, u64)>)
        ensures
            reaped@ == old(self)@.expired(now, timeout),
            final(self)@ == old(self)@.reap(now, timeout),
            old(self)@.wf() ==> final(self)@.wf(),
    {
        let ghost before = self@;
        let mut reaped: Vec<(PeerId, u64)> = Vec::new();
        let mut live: Vec<PendingRequest> = Vec::new();
        let mut i: usize = 0;
        assert(before.pending.take(0) =~= Seq::empty());
        proof {
            lemma_filter_keeps_all(Seq::<PendingRequest>::empty(), is_expired(now, timeout));
            lemma_filter_keeps_all(Seq::<PendingRequest>::empty(), is_live(now, timeout));
        }
        while i < self.requests.len()
            invariant
                i <= self.requests.len(),
                self.requests@ == before.pending,
                self@ == before,
                live@ == before.pending.take(i as int).filter(is_live(now, timeout)),
                reaped@ == before.pending.take(i as int).filter(
                    is_expired(now, timeout),
                ).map_values(request_key()),
            decreases self.requests.len() - i,
        {
            let r = self.requests[i];
            proof {
                let seen = before.pending.take(i as int);
                assert(before.pending.take(i + 1) =~= seen.push(r));
                lemma_filter_push(seen, is_live(now, timeout), r);
                lemma_filter_push(seen, is_expired(now, timeout), r);
                assert(seen.filter(is_expired(now, timeout)).push(r).map_values(request_key())
                    =~= seen.filter(is_expired(now, timeout)).map_values(request_key()).push(
                    (r.peer_id, r.id),
                ));
            }
            if now > r.sent_at && now - r.sent_at > timeout {
                reaped.push((r.peer_id, r.id));
            } else {
                live.push(r);
            }
            i += 1;
        }
        proof {
            assert(before.pending.take(i as int) =~= before.pending);
            if before.wf() {
                lemma_filter_keeps_wf(before, is_live(now, timeout));
            }
        }
        self.requests = live;
        reaped
    }

    /// Takes off every unanswered request to `peer_id`. The counter of the
    /// peer stays, so that a later request does not reuse an id.
    pub fn forget_peer(&mut self, peer_id: PeerId)
        ensures
            final(self)@ == old(self)@.forget_peer(peer_id),
            old(self)@.wf() ==> final(self)@.wf(),
    {
        let ghost before = self@;
        let mut kept: Vec<PendingRequest> = Vec::new();
        let mut i: usize = 0;
        assert(before.pending.take(0) =~= Seq::empty());
        proof {
            lemma_filter_keeps_all(Seq::<PendingRequest>::empty(), is_to_other_peer(peer_id));
        }
        while i < self.requests.len()
            invariant
                i <= self.requests.len(),
                self.requests@ == before.pending,
                self@ == before,
                kept@ == before.pending.take(i as int).filter(is_to_other_peer(peer_id)),
            decreases self.requests.len() - i,
        {
            let r = self.requests[i];
            proof {
                let seen = before.pending.take(i as int);
                assert(before.pending.take(i + 1) =~= seen.push(r));
                lemma_filter_push(seen, is_to_other_peer(peer_id), r);
            }
            if r.peer_id != peer_id {
                kept.push(r);
            }
            i += 1;
        }
        proof {
            assert(before.pending.take(i as int) =~= before.pending);
            if before.wf() {
                lemma_filter_keeps_wf(before, is_to_other_peer(peer_id));
            }
        }
        self.requests = kept;
    }
}

} // verus!
