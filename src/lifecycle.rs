//! The decisions of each lifecycle operation, as functions from what the
//! request and the document store gave to what happens next. Any store can be
//! driven by them: the caller performs each storage call and hands its answer
//! back.

use vstd::prelude::*;

use crate::doc_id::{id_bytes_of_text, is_id_text, parse_doc_id, DocId};
use crate::envelope::{Outcome, OutcomeView};
use crate::event::{
    bump, events_view, is_new_event, merge_vote, merged_voters, new_event, voters_view,
    AvailableEvents, EventAddRequest, EventInfo, EventView, Voter, VoteUpdate,
};
use crate::store::not_expired;

verus! {

/// Whether a vote on an expired event is recorded like any other or refused.
#[derive(Clone, Copy, Debug, PartialEq, Eq, Structural)]
pub enum ExpiredVotePolicy {
    Accept,
    Reject,
}

/// What a creation does once the store was asked for the title.
#[derive(Debug)]
pub enum AddStep {
    /// Answer at once.
    Reply(Outcome),
    /// Insert this event, then answer with `add_event_after_insert`.
    Insert(EventInfo),
}

/// After looking up the requested title: an event that exists already is
/// handed back with no insertion; otherwise the new event, created at
/// `created_at` and expiring `expiration` seconds later, is to be inserted.
pub fn add_event_after_lookup(
    found: Option<EventInfo>,
    req: EventAddRequest,
    created_at: i64,
    expiration: i64,
) -> (r: AddStep)
    requires
        i64::MIN <= created_at + expiration <= i64::MAX,
    ensures
        found matches Some(e) ==> (r matches AddStep::Reply(o) && o@ == OutcomeView::Found(e@)),
        found is None ==> (r matches AddStep::Insert(ev) && ev._id is None && is_new_event(
            ev@,
            req.title@,
            req.content@,
            req.creator_wallet_address@,
            created_at,
            expiration,
        )),
{
    match found {
        Some(e) => AddStep::Reply(Outcome::Found(e)),
        None => AddStep::Insert(new_event(req, created_at, expiration)),
    }
}

/// The answer to a creation once the store took, or refused, the insertion.
pub fn add_event_after_insert(inserted: Result<DocId, String>) -> (r: Outcome)
    ensures
        inserted matches Ok(id) ==> r@ == OutcomeView::Inserted(id@),
        inserted matches Err(m) ==> r@ == OutcomeView::InsertFailed(m@),
{
    match inserted {
        Ok(id) => Outcome::Inserted(id),
        Err(m) => Outcome::InsertFailed(m),
    }
}

/// Copies the events of `events` that are not expired, in their order.
pub fn keep_not_expired(events: &Vec<EventInfo>) -> (r: Vec<EventInfo>)
    ensures
        events_view(r@) == not_expired(events_view(events@)),
        forall|i: int| 0 <= i < r@.len() ==> !(#[trigger] r@[i]).is_expired,
{
    let ghost all = events_view(events@);
    let mut r: Vec<EventInfo> = Vec::new();
    let mut i: usize = 0;
    while i < events.len()
        invariant
            0 <= i <= events@.len(),
            all == events_view(events@),
            events_view(r@) == not_expired(all.subrange(0, i as int)),
            forall|j: int| 0 <= j < r@.len() ==> !(#[trigger] r@[j]).is_expired,
        decreases events@.len() - i,
    {
        let ghost before = r@;
        proof {
            assert(all.subrange(0, i + 1).drop_last() =~= all.subrange(0, i as int));
        }
        if !events[i].is_expired {
            r.push(events[i].clone());
            assert(events_view(r@) =~= events_view(before).push(all[i as int]));
        }
        i = i + 1;
    }
    assert(all.subrange(0, all.len() as int) =~= all);
    r
}

/// The answer to a listing once the store returned the events it holds that
/// are not expired. Whatever the store returned, an expired event is never
/// listed.
pub fn available_after_fetch(fetched: Result<Vec<EventInfo>, String>) -> (r: Outcome)
    ensures
        fetched matches Ok(es) ==> r@ == OutcomeView::Fetched(not_expired(events_view(es@))),
        fetched matches Ok(es) ==> ((forall|i: int| 0 <= i < es@.len() ==> !(#[trigger] es@[i]).is_expired)
            ==> r@ == OutcomeView::Fetched(events_view(es@))),
        fetched matches Err(m) ==> r@ == OutcomeView::StorageError(m@),
{
    match fetched {
        Ok(es) => {
            proof {
                if forall|i: int| 0 <= i < es@.len() ==> !(#[trigger] es@[i]).is_expired {
                    lemma_not_expired_keeps_active(events_view(es@));
                }
            }
            Outcome::Fetched(AvailableEvents { events: keep_not_expired(&es) })
        },
        Err(m) => Outcome::StorageError(m),
    }
}

proof fn lemma_not_expired_keeps_active(s: Seq<EventView>)
    requires
        forall|i: int| 0 <= i < s.len() ==> !(#[trigger] s[i]).is_expired,
    ensures
        not_expired(s) == s,
    decreases s.len(),
{
    if s.len() > 0 {
        lemma_not_expired_keeps_active(s.drop_last());
        assert(s.drop_last().push(s.last()) =~= s);
    }
}

/// The identifier that a request writes as `text`; a malformed one is answered
/// at once, before any storage work.
pub fn id_of_request(text: &String) -> (r: Result<DocId, Outcome>)
    ensures
        is_id_text(text@) ==> (r matches Ok(d) && d@ == id_bytes_of_text(text@)),
        !is_id_text(text@) ==> (r matches Err(o) && o@ == OutcomeView::MalformedId),
{
    match parse_doc_id(text.as_str()) {
        Some(d) => Ok(d),
        None => Err(Outcome::MalformedId),
    }
}

/// What a vote does once the store was asked for the event.
#[derive(Debug)]
pub enum VoteStep {
    /// Answer at once.
    Reply(Outcome),
    /// Write these voters and tallies, then answer with `cast_vote_after_update`.
    Update(VoteUpdate),
}

/// After looking up the event a vote is for: a missing event is not found; an
/// expired one refuses the vote under `ExpiredVotePolicy::Reject`; otherwise
/// the vote is merged into it.
pub fn cast_vote_after_lookup(found: Option<EventInfo>, voter: Voter, policy: ExpiredVotePolicy) -> (r: VoteStep)
    ensures
        found is None ==> (r matches VoteStep::Reply(o) && o@ == OutcomeView::NotFound),
        found matches Some(e) ==> (policy == ExpiredVotePolicy::Reject && e.is_expired ==> (r matches VoteStep::Reply(o)
            && o@ == OutcomeView::EventExpired)),
        found matches Some(e) ==> (!(policy == ExpiredVotePolicy::Reject && e.is_expired) ==> (r matches VoteStep::Update(u)
            && voters_view(u.voters@) == merged_voters(e@.voters, voter@)
            && u.upvotes == (if voter.is_upvote { bump(e.upvotes) } else { e.upvotes })
            && u.downvotes == (if voter.is_upvote { e.downvotes } else { bump(e.downvotes) }))),
{
    match found {
        None => VoteStep::Reply(Outcome::NotFound),
        Some(e) => {
            if policy == ExpiredVotePolicy::Reject && e.is_expired {
                VoteStep::Reply(Outcome::EventExpired)
            } else {
                VoteStep::Update(merge_vote(e, voter))
            }
        },
    }
}

/// The answer to a vote once the store wrote it: `Ok(matched)` tells whether
/// a document matched the update.
pub fn cast_vote_after_update(updated: Result<bool, String>) -> (r: Outcome)
    ensures
        updated matches Ok(matched) ==> r@ == (if matched { OutcomeView::Voted } else { OutcomeView::NotFound }),
        updated matches Err(m) ==> r@ == OutcomeView::StorageError(m@),
{
    match updated {
        Ok(true) => Outcome::Voted,
        Ok(false) => Outcome::NotFound,
        Err(m) => Outcome::StorageError(m),
    }
}

/// The answer to an expiration once the store set the flag and returned the
/// event as it now stands, or nothing when no event matched.
pub fn expire_event_after_update(updated: Result<Option<EventInfo>, String>) -> (r: Outcome)
    ensures
        updated matches Ok(Some(e)) ==> r@ == OutcomeView::Expired(e@),
        updated matches Ok(None) ==> r@ == OutcomeView::NotFound,
        updated matches Err(m) ==> r@ == OutcomeView::StorageError(m@),
{
    match updated {
        Ok(Some(e)) => Outcome::Expired(e),
        Ok(None) => Outcome::NotFound,
        Err(m) => Outcome::StorageError(m),
    }
}

/// The identifier a deletion is for, once `api_key` is checked against the
/// configured `delete_key`: a wrong key is answered before anything else, and
/// a malformed identifier next, both without storage work.
pub fn delete_target(id: &String, api_key: &String, delete_key: &String) -> (r: Result<DocId, Outcome>)
    ensures
        api_key@ != delete_key@ ==> (r matches Err(o) && o@ == OutcomeView::WrongApiKey),
        api_key@ == delete_key@ && !is_id_text(id@) ==> (r matches Err(o) && o@ == OutcomeView::MalformedId),
        api_key@ == delete_key@ && is_id_text(id@) ==> (r matches Ok(d) && d@ == id_bytes_of_text(id@)),
{
    if !api_key.eq(delete_key) {
        return Err(Outcome::WrongApiKey);
    }
    id_of_request(id)
}

/// The answer to a deletion once the store removed the event, handing it
/// back, or found none.
pub fn delete_event_after_remove(removed: Result<Option<EventInfo>, String>) -> (r: Outcome)
    ensures
        removed matches Ok(Some(e)) ==> r@ == OutcomeView::Deleted(e@),
        removed matches Ok(None) ==> r@ == OutcomeView::NotFound,
        removed matches Err(m) ==> r@ == OutcomeView::StorageError(m@),
{
    match removed {
        Ok(Some(e)) => Outcome::Deleted(e),
        Ok(None) => Outcome::NotFound,
        Err(m) => Outcome::StorageError(m),
    }
}

} // verus!
