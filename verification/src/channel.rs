//! Request/response rendezvous.
//!
//! A [`Channel`] decouples request submission from response delivery: any
//! number of logical callers may have requests in flight at once, each
//! tagged with a correlation id, and each id resolves to exactly one
//! response no matter in which order the producer answers.
//!
//! A request moves through three phases: *pending* (submitted, not yet taken
//! by the consumer), *in flight* (taken by the consumer, not yet answered),
//! and *resolved* (answered, waiting for its submitter to collect the
//! response). Ids never repeat, so the three phases never overlap.

use vstd::prelude::*;

use crate::component::{CfuRequest, InternalResponse, Request};

verus! {

/// Opaque correlation token linking a submitted request to its response.
pub type RequestId = u64;

/// True when no two entries of `s` carry the same id.
pub open spec fn ids_distinct(s: Seq<RequestId>) -> bool {
    forall|i: int, j: int| 0 <= i < j < s.len() ==> s[i] != s[j]
}

/// True when `s` and `t` share no id.
pub open spec fn ids_disjoint(s: Seq<RequestId>, t: Seq<RequestId>) -> bool {
    forall|i: int, j: int| 0 <= i < s.len() && 0 <= j < t.len() ==> s[i] != t[j]
}

/// True when every id of `s` is below `n`.
pub open spec fn ids_below(s: Seq<RequestId>, n: RequestId) -> bool {
    forall|i: int| 0 <= i < s.len() ==> s[i] < n
}

/// The ids of a sequence of pending entries.
pub open spec fn entry_ids(s: Seq<(RequestId, Request)>) -> Seq<RequestId> {
    s.map_values(|p: (RequestId, Request)| p.0)
}

/// The ids of a sequence of resolved entries.
pub open spec fn resolved_ids(s: Seq<(RequestId, InternalResponse)>) -> Seq<RequestId> {
    s.map_values(|p: (RequestId, InternalResponse)| p.0)
}

/// The map view of a sequence of resolved entries: which response each id
/// resolved to. Later entries win, which never matters under distinct ids.
pub open spec fn response_map(s: Seq<(RequestId, InternalResponse)>) -> Map<
    RequestId,
    InternalResponse,
>
    decreases s.len(),
{
    if s.len() == 0 {
        Map::empty()
    } else {
        response_map(s.drop_last()).insert(s.last().0, s.last().1)
    }
}

/// An id absent from every entry of `s` is absent from the map view.
proof fn lemma_response_map_absent(s: Seq<(RequestId, InternalResponse)>, id: RequestId)
    requires
        forall|i: int| 0 <= i < s.len() ==> s[i].0 != id,
    ensures
        !response_map(s).dom().contains(id),
    decreases s.len(),
{
    if s.len() > 0 {
        assert(forall|i: int| 0 <= i < s.drop_last().len() ==> s.drop_last()[i] == s[i]);
        lemma_response_map_absent(s.drop_last(), id);
    }
}

/// Under distinct ids, entry `i` of `s` is in the map view with its own
/// response.
proof fn lemma_response_map_present(s: Seq<(RequestId, InternalResponse)>, i: int)
    requires
        ids_distinct(resolved_ids(s)),
        0 <= i < s.len(),
    ensures
        response_map(s).dom().contains(s[i].0),
        response_map(s)[s[i].0] == s[i].1,
    decreases s.len(),
{
    if i < s.len() - 1 {
        assert(resolved_ids(s.drop_last()) =~= resolved_ids(s).drop_last());
        lemma_response_map_present(s.drop_last(), i);
        assert(resolved_ids(s)[i] != resolved_ids(s)[s.len() - 1]);
    }
}

/// Under distinct ids, removing entry `i` from `s` removes exactly its id
/// from the map view.
proof fn lemma_response_map_remove(s: Seq<(RequestId, InternalResponse)>, i: int)
    requires
        ids_distinct(resolved_ids(s)),
        0 <= i < s.len(),
    ensures
        response_map(s.remove(i)) == response_map(s).remove(s[i].0),
    decreases s.len(),
{
    if i == s.len() - 1 {
        assert(s.remove(i) =~= s.drop_last());
        assert(forall|j: int| 0 <= j < s.len() - 1 ==> #[trigger] s.drop_last()[j].0 != s[i].0)
            by {
            assert(forall|j: int|
                0 <= j < s.len() - 1 ==> #[trigger] s.drop_last()[j].0 == resolved_ids(s)[j]);
            assert(forall|j: int|
                0 <= j < s.len() - 1 ==> #[trigger] resolved_ids(s)[j] != resolved_ids(s)[s.len()
                    - 1]);
            assert(resolved_ids(s)[s.len() - 1] == s[i].0);
        }
        lemma_response_map_absent(s.drop_last(), s[i].0);
        assert(response_map(s.drop_last()).insert(s[i].0, s[i].1).remove(s[i].0)
            =~= response_map(s.drop_last()));
    } else {
        assert(s.remove(i).drop_last() =~= s.drop_last().remove(i));
        assert(s.remove(i).last() == s.last());
        assert(resolved_ids(s.drop_last()) =~= resolved_ids(s).drop_last());
        lemma_response_map_remove(s.drop_last(), i);
        assert(resolved_ids(s)[i] != resolved_ids(s)[s.len() - 1]);
        assert(response_map(s.drop_last()).remove(s[i].0).insert(s.last().0, s.last().1)
            =~= response_map(s.drop_last()).insert(s.last().0, s.last().1).remove(s[i].0));
    }
}

/// Pushing an entry inserts exactly its pair into the map view.
proof fn lemma_response_map_push(s: Seq<(RequestId, InternalResponse)>, p: (RequestId, InternalResponse))
    ensures
        response_map(s.push(p)) == response_map(s).insert(p.0, p.1),
{
    assert(s.push(p).drop_last() =~= s);
    assert(s.push(p).last() == p);
}

/// The rendezvous: correlates each submitted request with exactly one
/// response.
pub struct Channel {
    /// The id the next submission will receive; all ids ever issued are
    /// below it.
    next_id: RequestId,
    /// Submitted requests the consumer has not yet taken, oldest first.
    pending: Vec<(RequestId, Request)>,
    /// Ids taken by the consumer and not yet answered.
    in_flight: Vec<RequestId>,
    /// Answered ids whose submitter has not yet collected the response.
    resolved: Vec<(RequestId, InternalResponse)>,
}

impl Channel {
    /// Submitted requests the consumer has not yet taken, oldest first,
    /// each with its correlation id.
    pub closed spec fn pending_entries(&self) -> Seq<(RequestId, Request)> {
        self.pending@
    }

    /// Ids taken by the consumer and not yet answered.
    pub closed spec fn in_flight_ids(&self) -> Seq<RequestId> {
        self.in_flight@
    }

    /// Which response each answered id resolved to, until collected.
    pub closed spec fn responses(&self) -> Map<RequestId, InternalResponse> {
        response_map(self.resolved@)
    }

    /// The correlation id the next submission will receive.
    pub closed spec fn fresh_id(&self) -> RequestId {
        self.next_id
    }

    /// True while the id space is not exhausted; a machine limit, not a
    /// protocol one.
    pub open spec fn can_issue(&self) -> bool {
        self.fresh_id() < RequestId::MAX
    }

    /// True when nothing is pending, in flight, or resolved.
    pub open spec fn is_empty(&self) -> bool {
        self.pending_entries().len() == 0 && self.in_flight_ids().len() == 0
            && self.responses() =~= Map::empty()
    }

    /// Correlation bookkeeping is well formed: no id appears twice within
    /// or across the three phases, and every id is below the next fresh
    /// one.
    pub closed spec fn wf(&self) -> bool {
        &&& ids_distinct(entry_ids(self.pending@))
        &&& ids_distinct(self.in_flight@)
        &&& ids_distinct(resolved_ids(self.resolved@))
        &&& ids_disjoint(entry_ids(self.pending@), self.in_flight@)
        &&& ids_disjoint(entry_ids(self.pending@), resolved_ids(self.resolved@))
        &&& ids_disjoint(self.in_flight@, resolved_ids(self.resolved@))
        &&& ids_below(entry_ids(self.pending@), self.next_id)
        &&& ids_below(self.in_flight@, self.next_id)
        &&& ids_below(resolved_ids(self.resolved@), self.next_id)
    }

    /// An empty channel.
    pub fn new() -> (r: Channel)
        ensures
            r.is_empty(),
            r.wf(),
            r.fresh_id() == 0,
    {
        Channel { next_id: 0, pending: Vec::new(), in_flight: Vec::new(), resolved: Vec::new() }
    }

    /// Enqueue `request` and return its correlation id immediately; the
    /// caller collects the response later with [`Self::take_response`].
    ///
    /// The returned id is fresh: it is not pending, in flight, or resolved
    /// anywhere in the channel at the time of submission.
    pub fn submit_nowait(&mut self, request: Request) -> (r: RequestId)
        requires
            old(self).wf(),
            old(self).can_issue(),
        ensures
            final(self).wf(),
            r == old(self).fresh_id(),
            final(self).fresh_id() == r + 1,
            final(self).pending_entries() == old(self).pending_entries().push((r, request)),
            final(self).in_flight_ids() == old(self).in_flight_ids(),
            final(self).responses() == old(self).responses(),
    {
        let id = self.next_id;
        self.next_id = self.next_id + 1;
        self.pending.push((id, request));
        proof {
            assert(entry_ids(self.pending@) =~= entry_ids(old(self).pending@).push(id));
        }
        id
    }

    /// The consumer takes the oldest pending request, which becomes in
    /// flight under its id. Requests come out in submission order.
    pub fn receive(&mut self) -> (r: Option<CfuRequest>)
        requires
            old(self).wf(),
        ensures
            final(self).wf(),
            final(self).fresh_id() == old(self).fresh_id(),
            final(self).responses() == old(self).responses(),
            match r {
                None => {
                    &&& old(self).pending_entries().len() == 0
                    &&& *final(self) == *old(self)
                },
                Some(req) => {
                    &&& old(self).pending_entries().len() > 0
                    &&& req.request_id == old(self).pending_entries()[0].0
                    &&& req.command == old(self).pending_entries()[0].1
                    &&& final(self).pending_entries() == old(self).pending_entries().subrange(
                        1,
                        old(self).pending_entries().len() as int,
                    )
                    &&& final(self).in_flight_ids() == old(self).in_flight_ids().push(
                        req.request_id,
                    )
                },
            },
    {
        if self.pending.len() == 0 {
            return None;
        }
        let (id, command) = self.pending.remove(0);
        self.in_flight.push(id);
        proof {
            assert(entry_ids(self.pending@) =~= entry_ids(old(self).pending@).subrange(
                1,
                entry_ids(old(self).pending@).len() as int,
            ));
            assert(entry_ids(old(self).pending@)[0] == id);
        }
        Some(CfuRequest { request_id: id, command })
    }

    /// The producer posts the response for an in-flight id. Each id is
    /// answered at most once: answering an id that is not in flight is a
    /// programming error in the producer, ruled out here rather than
    /// handled.
    pub fn respond(&mut self, id: RequestId, response: InternalResponse)
        requires
            old(self).wf(),
            old(self).in_flight_ids().contains(id),
        ensures
            final(self).wf(),
            final(self).fresh_id() == old(self).fresh_id(),
            final(self).pending_entries() == old(self).pending_entries(),
            final(self).responses() == old(self).responses().insert(id, response),
            !final(self).in_flight_ids().contains(id),
            final(self).in_flight_ids().len() == old(self).in_flight_ids().len() - 1,
            forall|other: RequestId|
                other != id ==> (final(self).in_flight_ids().contains(other)
                    <==> old(self).in_flight_ids().contains(other)),
    {
        let idx_opt = self.find_in_flight(id);
        proof {
            let k = choose|k: int|
                0 <= k < old(self).in_flight@.len() && old(self).in_flight@[k] == id;
            assert(self.in_flight@[k] == id);
        }
        let idx = idx_opt.unwrap();
        self.in_flight.remove(idx);
        self.resolved.push((id, response));
        proof {
            let old_if = old(self).in_flight@;
            let new_if = self.in_flight@;
            assert(forall|other: RequestId|
                new_if.contains(other) ==> old_if.contains(other)) by {
                assert(forall|k: int| 0 <= k < new_if.len() ==> old_if.contains(new_if[k]));
            }
            assert(forall|other: RequestId|
                other != id && old_if.contains(other) ==> new_if.contains(other)) by {
                assert(forall|k: int|
                    0 <= k < old_if.len() && old_if[k] != id ==> #[trigger] new_if.contains(
                        old_if[k],
                    )) by {
                        assert(forall|k: int|
                            #![trigger old_if[k]]
                            0 <= k < old_if.len() && old_if[k] != id ==> {
                                let w = if k < idx { k } else { k - 1 };
                                new_if[w] == old_if[k]
                            });
                    }
            }
            assert(!new_if.contains(id)) by {
                assert(forall|k: int| 0 <= k < old_if.len() && k != idx ==> old_if[k] != id);
                assert(forall|k: int|
                    #![trigger new_if[k]]
                    0 <= k < new_if.len() ==> {
                        let w = if k < idx { k } else { k + 1 };
                        new_if[k] == old_if[w]
                    });
            }
            assert(resolved_ids(self.resolved@) =~= resolved_ids(old(self).resolved@).push(id));
            lemma_response_map_push(old(self).resolved@, (id, response));
        }
    }

    /// Collect the response for `id`, if it has been answered. Returns the
    /// response `id` resolved to and forgets it; any other id's response is
    /// untouched.
    pub fn take_response(&mut self, id: RequestId) -> (r: Option<InternalResponse>)
        requires
            old(self).wf(),
        ensures
            final(self).wf(),
            final(self).fresh_id() == old(self).fresh_id(),
            final(self).pending_entries() == old(self).pending_entries(),
            final(self).in_flight_ids() == old(self).in_flight_ids(),
            r == if old(self).responses().dom().contains(id) {
                Some(old(self).responses()[id])
            } else {
                None::<InternalResponse>
            },
            final(self).responses() == old(self).responses().remove(id),
    {
        let idx_opt = self.find_resolved(id);
        match idx_opt {
            None => {
                proof {
                    lemma_response_map_absent(self.resolved@, id);
                    assert(old(self).responses().remove(id) =~= old(self).responses());
                }
                None
            },
            Some(idx) => {
                proof {
                    lemma_response_map_present(self.resolved@, idx as int);
                    lemma_response_map_remove(self.resolved@, idx as int);
                }
                let (_, response) = self.resolved.remove(idx);
                proof {
                    assert(resolved_ids(self.resolved@) =~= resolved_ids(
                        old(self).resolved@,
                    ).remove(idx as int));
                }
                Some(response)
            },
        }
    }

    /// Collect whichever answered response is oldest, with its id. Which
    /// request completes first is not serialized; callers that need a
    /// specific answer use [`Self::take_response`].
    pub fn take_any_response(&mut self) -> (r: Option<(RequestId, InternalResponse)>)
        requires
            old(self).wf(),
        ensures
            final(self).wf(),
            final(self).fresh_id() == old(self).fresh_id(),
            final(self).pending_entries() == old(self).pending_entries(),
            final(self).in_flight_ids() == old(self).in_flight_ids(),
            match r {
                None => {
                    &&& old(self).responses() =~= Map::empty()
                    &&& *final(self) == *old(self)
                },
                Some(p) => {
                    &&& old(self).responses().dom().contains(p.0)
                    &&& old(self).responses()[p.0] == p.1
                    &&& final(self).responses() == old(self).responses().remove(p.0)
                },
            },
    {
        if self.resolved.len() == 0 {
            proof {
                assert(self.responses() =~= Map::<RequestId, InternalResponse>::empty());
            }
            return None;
        }
        proof {
            lemma_response_map_present(self.resolved@, 0);
            lemma_response_map_remove(self.resolved@, 0);
        }
        let (id, response) = self.resolved.remove(0);
        proof {
            assert(resolved_ids(self.resolved@) =~= resolved_ids(old(self).resolved@).remove(0));
        }
        Some((id, response))
    }

    /// Index of `id` among the in-flight ids, if present.
    fn find_in_flight(&self, id: RequestId) -> (r: Option<usize>)
        ensures
            match r {
                Some(i) => i < self.in_flight@.len() && self.in_flight@[i as int] == id,
                None => forall|j: int| 0 <= j < self.in_flight@.len() ==> self.in_flight@[j] != id,
            },
    {
        let mut i: usize = 0;
        while i < self.in_flight.len()
            invariant
                i <= self.in_flight@.len(),
                forall|j: int| 0 <= j < i ==> self.in_flight@[j] != id,
            decreases self.in_flight@.len() - i,
        {
            if self.in_flight[i] == id {
                return Some(i);
            }
            i = i + 1;
        }
        None
    }

    /// Index of `id` among the resolved entries, if present.
    fn find_resolved(&self, id: RequestId) -> (r: Option<usize>)
        ensures
            match r {
                Some(i) => i < self.resolved@.len() && self.resolved@[i as int].0 == id,
                None => forall|j: int| 0 <= j < self.resolved@.len() ==> self.resolved@[j].0 != id,
            },
    {
        let mut i: usize = 0;
        while i < self.resolved.len()
            invariant
                i <= self.resolved@.len(),
                forall|j: int| 0 <= j < i ==> self.resolved@[j].0 != id,
            decreases self.resolved@.len() - i,
        {
            if self.resolved[i].0 == id {
                return Some(i);
            }
            i = i + 1;
        }
        None
    }
}

/// Out-of-order completion never cross-wires responses: if two distinct ids
/// are answered — in either order — each id still resolves to its own
/// response. Stated over the channel's response map, which
/// [`Channel::respond`] extends one insertion at a time and
/// [`Channel::take_response`] reads back.
pub proof fn lemma_out_of_order_resolution(
    m: Map<RequestId, InternalResponse>,
    id_a: RequestId,
    id_b: RequestId,
    resp_a: InternalResponse,
    resp_b: InternalResponse,
)
    requires
        id_a != id_b,
    ensures
        m.insert(id_b, resp_b).insert(id_a, resp_a)[id_a] == resp_a,
        m.insert(id_b, resp_b).insert(id_a, resp_a)[id_b] == resp_b,
        m.insert(id_a, resp_a).insert(id_b, resp_b)[id_a] == resp_a,
        m.insert(id_a, resp_a).insert(id_b, resp_b)[id_b] == resp_b,
{
}

} // verus!
