//! What is known of the requests that were sent: the next id of every peer
//! and the requests that wait for their response, with what each event makes
//! of them.

use crate::seq_filter::{
    lemma_filter_keeps_all, lemma_filter_keeps_none, lemma_filter_members, lemma_filter_partition,
    lemma_filter_places, lemma_filter_removes_one,
};
use crate::types::PeerId;
use vstd::prelude::*;

verus! {

/// A request that was sent and has not been answered yet.
#[derive(Debug, Clone, Copy, PartialEq, Eq)]
pub struct PendingRequest {
    /// The peer the request went to.
    pub peer_id: PeerId,
    /// The id of the request, unique among those sent to this peer.
    pub id: u64,
    /// The time at which the request was sent.
    pub sent_at: u64,
}

/// The predicate "is any request but `id` to `peer_id`".
pub open spec fn is_other_request(peer_id: PeerId, id: u64) -> spec_fn(PendingRequest) -> bool {
    |r: PendingRequest| !(r.peer_id == peer_id && r.id == id)
}

/// The predicate "went to a peer other than `peer_id`".
pub open spec fn is_to_other_peer(peer_id: PeerId) -> spec_fn(PendingRequest) -> bool {
    |r: PendingRequest| r.peer_id != peer_id
}

/// Whether `r` has, at time `now`, waited longer than `timeout`. A request
/// stamped later than `now` has not waited at all.
pub open spec fn has_expired(r: PendingRequest, now: u64, timeout: u64) -> bool {
    now as int - r.sent_at as int > timeout as int
}

/// The predicate "has waited longer than `timeout` at time `now`".
pub open spec fn is_expired(now: u64, timeout: u64) -> spec_fn(PendingRequest) -> bool {
    |r: PendingRequest| has_expired(r, now, timeout)
}

/// The predicate "has waited no longer than `timeout` at time `now`".
pub open spec fn is_live(now: u64, timeout: u64) -> spec_fn(PendingRequest) -> bool {
    |r: PendingRequest| !has_expired(r, now, timeout)
}

/// The peer and id of a pending request.
pub open spec fn request_key() -> spec_fn(PendingRequest) -> (PeerId, u64) {
    |r: PendingRequest| (r.peer_id, r.id)
}

/// What a tracker holds: the next unused id of every peer that was sent a
/// request, and the unanswered requests in the order in which they were sent.
pub struct RequestLog {
    pub next_ids: Map<PeerId, u64>,
    pub pending: Seq<PendingRequest>,
}

impl RequestLog {
    /// The log of a tracker that has sent nothing.
    pub open spec fn empty() -> RequestLog {
        RequestLog { next_ids: Map::empty(), pending: Seq::empty() }
    }

    /// The id that the next request to `peer_id` gets: zero for a peer that
    /// was never sent one.
    pub open spec fn next_unused(self, peer_id: PeerId) -> u64 {
        if self.next_ids.contains_key(peer_id) {
            self.next_ids[peer_id]
        } else {
            0
        }
    }

    /// Whether the request `id` to `peer_id` is unanswered.
    pub open spec fn is_pending(self, peer_id: PeerId, id: u64) -> bool {
        exists|i: int|
            0 <= i < self.pending.len() && (#[trigger] self.pending[i]).peer_id == peer_id
                && self.pending[i].id == id
    }

    /// Every unanswered request carries an id that its peer's counter has
    /// passed, and no peer has two unanswered requests with the same id.
    pub open spec fn wf(self) -> bool {
        &&& forall|i: int|
            0 <= i < self.pending.len() ==> (#[trigger] self.pending[i]).id < self.next_unused(
                self.pending[i].peer_id,
            )
        &&& forall|i: int, j: int|
            0 <= i < j < self.pending.len() ==> !((#[trigger] self.pending[i]).peer_id == (
            #[trigger] self.pending[j]).peer_id && self.pending[i].id == self.pending[j].id)
    }

    /// The log after a request to `peer_id` was sent at time `now`.
    pub open spec fn issue(self, peer_id: PeerId, now: u64) -> RequestLog {
        RequestLog {
            next_ids: self.next_ids.insert(peer_id, (self.next_unused(peer_id) + 1) as u64),
            pending: self.pending.push(
                PendingRequest { peer_id, id: self.next_unused(peer_id), sent_at: now },
            ),
        }
    }

    /// The log after the response to request `id` of `peer_id` arrived.
    pub open spec fn resolve(self, peer_id: PeerId, id: u64) -> RequestLog {
        RequestLog {
            next_ids: self.next_ids,
            pending: self.pending.filter(is_other_request(peer_id, id)),
        }
    }

    /// The requests that have waited longer than `timeout` at time `now`, in
    /// the order in which they were sent.
    pub open spec fn expired(self, now: u64, timeout: u64) -> Seq<(PeerId, u64)> {
        self.pending.filter(is_expired(now, timeout)).map_values(request_key())
    }

    /// The log without the requests that have waited longer than `timeout`.
    pub open spec fn reap(self, now: u64, timeout: u64) -> RequestLog {
        RequestLog {
            next_ids: self.next_ids,
            pending: self.pending.filter(is_live(now, timeout)),
        }
    }

    /// The log without the unanswered requests to `peer_id`. The counter of
    /// the peer stays, so that a later request does not reuse an id.
    pub open spec fn forget_peer(self, peer_id: PeerId) -> RequestLog {
        RequestLog {
            next_ids: self.next_ids,
            pending: self.pending.filter(is_to_other_peer(peer_id)),
        }
    }

    /// The log after one request to `peer_id` was sent at each of `times`.
    pub open spec fn issue_all(self, peer_id: PeerId, times: Seq<u64>) -> RequestLog
        decreases times.len(),
    {
        if times.len() == 0 {
            self
        } else {
            self.issue_all(peer_id, times.drop_last()).issue(peer_id, times.last())
        }
    }
}

/// Filtering keeps well-formed what was well-formed.
pub proof fn lemma_filter_keeps_wf(log: RequestLog, pred: spec_fn(PendingRequest) -> bool)
    requires
        log.wf(),
    ensures
        (RequestLog { next_ids: log.next_ids, pending: log.pending.filter(pred) }).wf(),
{
    let kept = log.pending.filter(pred);
    let after = RequestLog { next_ids: log.next_ids, pending: kept };
    let places = lemma_filter_places(log.pending, pred);
    assert forall|i: int| 0 <= i < kept.len() implies (#[trigger] kept[i]).id < after.next_unused(
        kept[i].peer_id,
    ) by {
        assert(log.pending[places[i]] == kept[i]);
    }
    assert forall|i: int, j: int| 0 <= i < j < kept.len() implies !((#[trigger] kept[i]).peer_id
        == (#[trigger] kept[j]).peer_id && kept[i].id == kept[j].id) by {
        assert(log.pending[places[i]] == kept[i]);
        assert(log.pending[places[j]] == kept[j]);
    }
}

/// Sending a request keeps the log well-formed, uses an id that no unanswered
/// request to the peer carries, and leaves every other peer's counter alone.
pub proof fn lemma_issue_is_fresh(log: RequestLog, peer_id: PeerId, now: u64)
    requires
        log.wf(),
        log.next_unused(peer_id) < u64::MAX,
    ensures
        log.issue(peer_id, now).wf(),
        !log.is_pending(peer_id, log.next_unused(peer_id)),
        log.issue(peer_id, now).is_pending(peer_id, log.next_unused(peer_id)),
        log.issue(peer_id, now).pending.len() == log.pending.len() + 1,
        log.issue(peer_id, now).next_unused(peer_id) == log.next_unused(peer_id) + 1,
        forall|other: PeerId|
            other != peer_id ==> log.issue(peer_id, now).next_unused(other) == log.next_unused(
                other,
            ),
{
    let after = log.issue(peer_id, now);
    assert(after.pending[log.pending.len() as int].peer_id == peer_id);
}

/// The requests to one peer are numbered in the order in which they are
/// sent: the ids go up by one from the peer's counter, which is zero for a
/// peer that was never sent a request, and each request adds one entry to the
/// unanswered ones.
pub proof fn lemma_ids_count_up(log: RequestLog, peer_id: PeerId, times: Seq<u64>)
    requires
        log.wf(),
        log.next_unused(peer_id) + times.len() <= u64::MAX,
    ensures
        log.issue_all(peer_id, times).wf(),
        log.issue_all(peer_id, times).next_unused(peer_id) == log.next_unused(peer_id)
            + times.len(),
        log.issue_all(peer_id, times).pending == log.pending + Seq::new(
            times.len(),
            |k: int|
                PendingRequest {
                    peer_id,
                    id: (log.next_unused(peer_id) + k) as u64,
                    sent_at: times[k],
                },
        ),
    decreases times.len(),
{
    let first = log.next_unused(peer_id);
    let sent = |k: int| PendingRequest { peer_id, id: (first + k) as u64, sent_at: times[k] };
    if times.len() == 0 {
        assert(log.pending + Seq::new(times.len(), sent) =~= log.pending);
    } else {
        let front = times.drop_last();
        let sent_front = |k: int|
            PendingRequest { peer_id, id: (first + k) as u64, sent_at: front[k] };
        lemma_ids_count_up(log, peer_id, front);
        let before = log.issue_all(peer_id, front);
        lemma_issue_is_fresh(before, peer_id, times.last());
        assert(before.pending == log.pending + Seq::new(front.len(), sent_front));
        assert(before.issue(peer_id, times.last()).pending =~= log.pending + Seq::new(
            times.len(),
            sent,
        ));
    }
}

/// A response to a request that was never sent finds nothing and changes
/// nothing.
pub proof fn lemma_unissued_is_not_pending(log: RequestLog, peer_id: PeerId, id: u64)
    requires
        log.wf(),
        id >= log.next_unused(peer_id),
    ensures
        !log.is_pending(peer_id, id),
        log.resolve(peer_id, id) == log,
{
    lemma_filter_keeps_all(log.pending, is_other_request(peer_id, id));
}

/// A response that finds nothing changes nothing.
pub proof fn lemma_unsolicited_changes_nothing(log: RequestLog, peer_id: PeerId, id: u64)
    requires
        !log.is_pending(peer_id, id),
    ensures
        log.resolve(peer_id, id) == log,
{
    lemma_filter_keeps_all(log.pending, is_other_request(peer_id, id));
}

/// A response takes its own request off the unanswered ones and no other:
/// after it, its request is answered, and every other request is unanswered
/// exactly if it was before. A second response to it finds nothing.
pub proof fn lemma_resolve_takes_one(log: RequestLog, peer_id: PeerId, id: u64)
    ensures
        !log.resolve(peer_id, id).is_pending(peer_id, id),
        log.resolve(peer_id, id).resolve(peer_id, id) == log.resolve(peer_id, id),
        forall|other: PeerId, other_id: u64|
            !(other == peer_id && other_id == id) ==> (#[trigger] log.resolve(
                peer_id,
                id,
            ).is_pending(other, other_id) <==> log.is_pending(other, other_id)),
        log.wf() ==> log.resolve(peer_id, id).wf(),
        log.wf() && log.is_pending(peer_id, id) ==> log.resolve(peer_id, id).pending.len() + 1
            == log.pending.len(),
{
    let pred = is_other_request(peer_id, id);
    let after = log.resolve(peer_id, id);
    lemma_filter_members(log.pending, pred);
    assert forall|other: PeerId, other_id: u64|
        !(other == peer_id && other_id == id) implies (#[trigger] after.is_pending(other, other_id)
        <==> log.is_pending(other, other_id)) by {
        if after.is_pending(other, other_id) {
            let i = choose|i: int|
                0 <= i < after.pending.len() && (#[trigger] after.pending[i]).peer_id == other
                    && after.pending[i].id == other_id;
            assert(log.pending.contains(after.pending[i]));
            let k = choose|k: int| 0 <= k < log.pending.len() && log.pending[k] == after.pending[i];
            assert(log.pending[k].peer_id == other);
        }
        if log.is_pending(other, other_id) {
            let i = choose|i: int|
                0 <= i < log.pending.len() && (#[trigger] log.pending[i]).peer_id == other
                    && log.pending[i].id == other_id;
            assert(pred(log.pending[i]));
            assert(after.pending.contains(log.pending[i]));
            let k = choose|k: int|
                0 <= k < after.pending.len() && after.pending[k] == log.pending[i];
            assert(after.pending[k].peer_id == other);
        }
    }
    lemma_filter_keeps_all(after.pending, pred);
    if log.wf() {
        lemma_filter_keeps_wf(log, pred);
        if log.is_pending(peer_id, id) {
            let i = choose|i: int|
                0 <= i < log.pending.len() && (#[trigger] log.pending[i]).peer_id == peer_id
                    && log.pending[i].id == id;
            lemma_filter_removes_one(log.pending, pred, i);
        }
    }
}

/// A sweep hands out exactly the requests that have waited longer than the
/// timeout, each of them once, and takes exactly those off the unanswered
/// ones. A request that has waited no longer is not handed out and stays.
pub proof fn lemma_reap_takes_the_expired(log: RequestLog, now: u64, timeout: u64)
    requires
        log.wf(),
    ensures
        log.reap(now, timeout).wf(),
        log.expired(now, timeout).no_duplicates(),
        log.expired(now, timeout).len() + log.reap(now, timeout).pending.len()
            == log.pending.len(),
        forall|i: int|
            0 <= i < log.pending.len() ==> (has_expired(#[trigger] log.pending[i], now, timeout)
                <==> log.expired(now, timeout).contains(
                (log.pending[i].peer_id, log.pending[i].id),
            )),
        forall|i: int|
            0 <= i < log.pending.len() ==> (has_expired(#[trigger] log.pending[i], now, timeout)
                <==> !log.reap(now, timeout).is_pending(
                log.pending[i].peer_id,
                log.pending[i].id,
            )),
        forall|peer_id: PeerId, id: u64|
            log.expired(now, timeout).contains((peer_id, id)) ==> log.is_pending(peer_id, id),
        forall|peer_id: PeerId, id: u64|
            #[trigger] log.reap(now, timeout).is_pending(peer_id, id) ==> log.is_pending(
                peer_id,
                id,
            ),
{
    let old_pred = is_expired(now, timeout);
    let live_pred = is_live(now, timeout);
    let gone = log.pending.filter(old_pred);
    let keys = log.expired(now, timeout);
    let after = log.reap(now, timeout);
    lemma_filter_keeps_wf(log, live_pred);
    lemma_filter_keeps_wf(log, old_pred);
    lemma_filter_members(log.pending, old_pred);
    lemma_filter_members(log.pending, live_pred);
    lemma_filter_partition(log.pending, old_pred, live_pred);
    let gone_log = RequestLog { next_ids: log.next_ids, pending: gone };
    assert(gone_log.wf());
    assert forall|i: int, j: int| 0 <= i < keys.len() && 0 <= j < keys.len() && i != j implies keys[i]
        != keys[j] by {
        assert(keys[i] == (gone[i].peer_id, gone[i].id));
        assert(keys[j] == (gone[j].peer_id, gone[j].id));
        if i < j {
            assert(!(gone_log.pending[i].peer_id == gone_log.pending[j].peer_id
                && gone_log.pending[i].id == gone_log.pending[j].id));
        } else {
            assert(!(gone_log.pending[j].peer_id == gone_log.pending[i].peer_id
                && gone_log.pending[j].id == gone_log.pending[i].id));
        }
    }
    assert forall|peer_id: PeerId, id: u64| keys.contains((peer_id, id)) implies log.is_pending(
        peer_id,
        id,
    ) by {
        let k = choose|k: int| 0 <= k < keys.len() && keys[k] == (peer_id, id);
        assert(log.pending.contains(gone[k]));
        let i = choose|i: int| 0 <= i < log.pending.len() && log.pending[i] == gone[k];
        assert(log.pending[i].peer_id == peer_id);
    }
    assert forall|peer_id: PeerId, id: u64| #[trigger]
        after.is_pending(peer_id, id) implies log.is_pending(peer_id, id) by {
        let k = choose|k: int|
            0 <= k < after.pending.len() && (#[trigger] after.pending[k]).peer_id == peer_id
                && after.pending[k].id == id;
        assert(log.pending.contains(after.pending[k]));
        let i = choose|i: int| 0 <= i < log.pending.len() && log.pending[i] == after.pending[k];
        assert(log.pending[i].peer_id == peer_id);
    }
    assert forall|i: int| 0 <= i < log.pending.len() implies (has_expired(
        #[trigger] log.pending[i],
        now,
        timeout,
    ) <==> keys.contains((log.pending[i].peer_id, log.pending[i].id))) by {
        let r = log.pending[i];
        if has_expired(r, now, timeout) {
            assert(old_pred(r));
            assert(gone.contains(r));
            let k = choose|k: int| 0 <= k < gone.len() && gone[k] == r;
            assert(keys[k] == (r.peer_id, r.id));
        }
        if keys.contains((r.peer_id, r.id)) {
            let k = choose|k: int| 0 <= k < keys.len() && keys[k] == (r.peer_id, r.id);
            assert(keys[k] == (gone[k].peer_id, gone[k].id));
            assert(log.pending.contains(gone[k]));
            let j = choose|j: int| 0 <= j < log.pending.len() && log.pending[j] == gone[k];
            assert(log.pending[j].peer_id == log.pending[i].peer_id);
            assert(j == i);
            assert(old_pred(gone[k]));
        }
    }
    assert forall|i: int| 0 <= i < log.pending.len() implies (has_expired(
        #[trigger] log.pending[i],
        now,
        timeout,
    ) <==> !after.is_pending(log.pending[i].peer_id, log.pending[i].id)) by {
        let r = log.pending[i];
        if !has_expired(r, now, timeout) {
            assert(live_pred(r));
            assert(after.pending.contains(r));
            let k = choose|k: int| 0 <= k < after.pending.len() && after.pending[k] == r;
            assert(after.pending[k].peer_id == r.peer_id);
        }
        if after.is_pending(r.peer_id, r.id) {
            let k = choose|k: int|
                0 <= k < after.pending.len() && (#[trigger] after.pending[k]).peer_id == r.peer_id
                    && after.pending[k].id == r.id;
            assert(log.pending.contains(after.pending[k]));
            let j = choose|j: int| 0 <= j < log.pending.len() && log.pending[j] == after.pending[k];
            assert(log.pending[j].peer_id == log.pending[i].peer_id);
            assert(j == i);
            assert(live_pred(after.pending[k]));
        }
    }
}

/// A second sweep at the same time finds nothing more.
pub proof fn lemma_reap_is_one_shot(log: RequestLog, now: u64, timeout: u64)
    ensures
        log.reap(now, timeout).expired(now, timeout) == Seq::<(PeerId, u64)>::empty(),
        log.reap(now, timeout).reap(now, timeout) == log.reap(now, timeout),
{
    let after = log.reap(now, timeout);
    lemma_filter_members(log.pending, is_live(now, timeout));
    assert forall|i: int| 0 <= i < after.pending.len() implies !is_expired(now, timeout)(
        #[trigger] after.pending[i],
    ) by {
        assert(is_live(now, timeout)(after.pending[i]));
    }
    lemma_filter_keeps_none(after.pending, is_expired(now, timeout));
    lemma_filter_keeps_all(after.pending, is_live(now, timeout));
    assert(after.expired(now, timeout) =~= Seq::<(PeerId, u64)>::empty());
}

/// When a peer goes away, none of its requests stays unanswered, and the
/// requests to every other peer stay as they were.
pub proof fn lemma_forget_peer_takes_its_requests(log: RequestLog, peer_id: PeerId)
    ensures
        forall|id: u64| !(#[trigger] log.forget_peer(peer_id).is_pending(peer_id, id)),
        forall|other: PeerId, id: u64|
            other != peer_id ==> (#[trigger] log.forget_peer(peer_id).is_pending(other, id)
                <==> log.is_pending(other, id)),
        forall|other: PeerId|
            log.forget_peer(peer_id).next_unused(other) == log.next_unused(other),
        log.wf() ==> log.forget_peer(peer_id).wf(),
{
    let pred = is_to_other_peer(peer_id);
    let after = log.forget_peer(peer_id);
    lemma_filter_members(log.pending, pred);
    assert forall|id: u64| !(#[trigger] after.is_pending(peer_id, id)) by {
        if after.is_pending(peer_id, id) {
            let i = choose|i: int|
                0 <= i < after.pending.len() && (#[trigger] after.pending[i]).peer_id == peer_id
                    && after.pending[i].id == id;
            assert(pred(after.pending[i]));
        }
    }
    assert forall|other: PeerId, id: u64| other != peer_id implies (#[trigger] after.is_pending(
        other,
        id,
    ) <==> log.is_pending(other, id)) by {
        if after.is_pending(other, id) {
            let i = choose|i: int|
                0 <= i < after.pending.len() && (#[trigger] after.pending[i]).peer_id == other
                    && after.pending[i].id == id;
            assert(log.pending.contains(after.pending[i]));
            let k = choose|k: int| 0 <= k < log.pending.len() && log.pending[k] == after.pending[i];
            assert(log.pending[k].peer_id == other);
        }
        if log.is_pending(other, id) {
            let i = choose|i: int|
                0 <= i < log.pending.len() && (#[trigger] log.pending[i]).peer_id == other
                    && log.pending[i].id == id;
            assert(pred(log.pending[i]));
            assert(after.pending.contains(log.pending[i]));
            let k = choose|k: int|
                0 <= k < after.pending.len() && after.pending[k] == log.pending[i];
            assert(after.pending[k].peer_id == other);
        }
    }
    if log.wf() {
        lemma_filter_keeps_wf(log, pred);
    }
}

} // verus!
