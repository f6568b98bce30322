//! The event record, its voters and the request bodies that reach it.

use vstd::prelude::*;

use crate::doc_id::DocId;

verus! {

/// One vote cast on an event, identified by the voter's wallet address.
#[derive(Debug)]
pub struct Voter {
    pub event_owner_wallet_address: String,
    pub is_upvote: bool,
    /// Informational weight supplied by the caller; never used in tallies.
    pub score: u32,
}

pub struct VoterView {
    pub address: Seq<char>,
    pub is_upvote: bool,
    pub score: u32,
}

impl View for Voter {
    type V = VoterView;

    open spec fn view(&self) -> VoterView {
        VoterView {
            address: self.event_owner_wallet_address@,
            is_upvote: self.is_upvote,
            score: self.score,
        }
    }
}

impl Clone for Voter {
    fn clone(&self) -> (r: Voter)
        ensures
            r@ == self@,
    {
        Voter {
            event_owner_wallet_address: self.event_owner_wallet_address.clone(),
            is_upvote: self.is_upvote,
            score: self.score,
        }
    }
}

/// The abstract content of a list of voters.
pub open spec fn voters_view(vs: Seq<Voter>) -> Seq<VoterView> {
    vs.map_values(|v: Voter| v@)
}

/// Whether some voter of `vs` has the wallet address `address`.
pub open spec fn has_voter(vs: Seq<VoterView>, address: Seq<char>) -> bool {
    exists|i: int| 0 <= i < vs.len() && (#[trigger] vs[i]).address == address
}

/// The voters after `v` votes: unchanged if its address is already recorded,
/// else `v` appended.
pub open spec fn merged_voters(vs: Seq<VoterView>, v: VoterView) -> Seq<VoterView> {
    if has_voter(vs, v.address) {
        vs
    } else {
        vs.push(v)
    }
}

/// The body of a vote: the event's identifier as text, and the voter.
#[derive(Debug)]
pub struct CastVoteRequest {
    pub _id: String,
    pub voter: Voter,
}

/// The body of an expiration: the event's identifier as text.
#[derive(Debug)]
pub struct ExpireEventRequest {
    pub _id: String,
}

/// The body of an event creation. Only `title`, `content` and
/// `creator_wallet_address` are read: the other fields are filled by the server.
#[derive(Debug)]
pub struct EventAddRequest {
    pub title: String,
    pub content: String,
    pub creator_wallet_address: String,
    pub upvotes: Option<u16>,
    pub downvotes: Option<u16>,
    pub voters: Option<Vec<Voter>>,
    pub is_expired: Option<bool>,
    pub expire_at: Option<i64>,
    pub created_at: Option<i64>,
}

/// A stored event.
#[derive(Debug)]
pub struct EventInfo {
    /// Assigned by the store at insertion; `None` before.
    pub _id: Option<DocId>,
    pub title: String,
    pub content: String,
    pub creator_wallet_address: String,
    pub upvotes: u16,
    pub downvotes: u16,
    pub voters: Vec<Voter>,
    pub is_expired: bool,
    /// Seconds since the epoch.
    pub expire_at: i64,
    /// Seconds since the epoch.
    pub created_at: i64,
}

pub struct EventView {
    pub id: Option<Seq<u8>>,
    pub title: Seq<char>,
    pub content: Seq<char>,
    pub creator: Seq<char>,
    pub upvotes: u16,
    pub downvotes: u16,
    pub voters: Seq<VoterView>,
    pub is_expired: bool,
    pub expire_at: i64,
    pub created_at: i64,
}

pub open spec fn id_view(id: Option<DocId>) -> Option<Seq<u8>> {
    match id {
        Some(d) => Some(d@),
        None => None,
    }
}

impl View for EventInfo {
    type V = EventView;

    open spec fn view(&self) -> EventView {
        EventView {
            id: id_view(self._id),
            title: self.title@,
            content: self.content@,
            creator: self.creator_wallet_address@,
            upvotes: self.upvotes,
            downvotes: self.downvotes,
            voters: voters_view(self.voters@),
            is_expired: self.is_expired,
            expire_at: self.expire_at,
            created_at: self.created_at,
        }
    }
}

/// The events that are still open for voting.
#[derive(Debug)]
pub struct AvailableEvents {
    pub events: Vec<EventInfo>,
}

/// The abstract content of a list of events.
pub open spec fn events_view(es: Seq<EventInfo>) -> Seq<EventView> {
    es.map_values(|e: EventInfo| e@)
}

impl View for AvailableEvents {
    type V = Seq<EventView>;

    open spec fn view(&self) -> Seq<EventView> {
        events_view(self.events@)
    }
}

/// A copy of a list of voters.
pub fn clone_voters(vs: &Vec<Voter>) -> (r: Vec<Voter>)
    ensures
        voters_view(r@) == voters_view(vs@),
{
    let mut r: Vec<Voter> = Vec::new();
    let mut i: usize = 0;
    while i < vs.len()
        invariant
            0 <= i <= vs@.len(),
            r@.len() == i,
            forall|j: int| 0 <= j < i ==> (#[trigger] r@[j])@ == vs@[j]@,
        decreases vs@.len() - i,
    {
        r.push(vs[i].clone());
        i = i + 1;
    }
    assert(voters_view(r@) =~= voters_view(vs@));
    r
}

impl Clone for EventInfo {
    fn clone(&self) -> (r: EventInfo)
        ensures
            r@ == self@,
    {
        EventInfo {
            _id: self._id,
            title: self.title.clone(),
            content: self.content.clone(),
            creator_wallet_address: self.creator_wallet_address.clone(),
            upvotes: self.upvotes,
            downvotes: self.downvotes,
            voters: clone_voters(&self.voters),
            is_expired: self.is_expired,
            expire_at: self.expire_at,
            created_at: self.created_at,
        }
    }
}

impl EventInfo {
    /// Records `voter` unless a voter with the same wallet address is already
    /// recorded; the first entry with that address is kept as it is.
    pub fn add_voter(self, voter: Voter) -> (r: Vec<Voter>)
        ensures
            voters_view(r@) == merged_voters(self@.voters, voter@),
    {
        let mut voters = self.voters;
        let mut i: usize = 0;
        while i < voters.len()
            invariant
                0 <= i <= voters@.len(),
                voters == self.voters,
                forall|j: int|
                    0 <= j < i ==> voters@[j].event_owner_wallet_address@
                        != voter.event_owner_wallet_address@,
            decreases voters@.len() - i,
        {
            if voters[i].event_owner_wallet_address == voter.event_owner_wallet_address {
                assert(voters_view(voters@)[i as int].address == voter@.address);
                return voters;
            }
            i = i + 1;
        }
        assert(!has_voter(voters_view(voters@), voter@.address));
        let ghost old_voters = voters@;
        voters.push(voter);
        assert(voters_view(voters@) =~= voters_view(old_voters).push(voter@));
        voters
    }
}

/// A 16-bit count after one more vote: it wraps to zero past its largest value.
pub open spec fn bump(n: u16) -> u16 {
    if n == u16::MAX {
        0
    } else {
        (n + 1) as u16
    }
}

/// What a vote changes on an event: its voters and both tallies.
#[derive(Debug)]
pub struct VoteUpdate {
    pub voters: Vec<Voter>,
    pub upvotes: u16,
    pub downvotes: u16,
}

/// One more vote on a 16-bit count.
pub fn bump_count(n: u16) -> (r: u16)
    ensures
        r == bump(n),
{
    if n == u16::MAX {
        0
    } else {
        n + 1
    }
}

/// Applies a vote to an event: the voter is recorded unless its address is
/// already there, and the tally of its side grows by one in either case.
pub fn merge_vote(event: EventInfo, voter: Voter) -> (r: VoteUpdate)
    ensures
        voters_view(r.voters@) == merged_voters(event@.voters, voter@),
        r.upvotes == (if voter.is_upvote { bump(event.upvotes) } else { event.upvotes }),
        r.downvotes == (if voter.is_upvote { event.downvotes } else { bump(event.downvotes) }),
{
    let mut upvotes = event.upvotes;
    let mut downvotes = event.downvotes;
    if voter.is_upvote {
        upvotes = bump_count(upvotes);
    } else {
        downvotes = bump_count(downvotes);
    }
    let voters = event.add_voter(voter);
    VoteUpdate { voters, upvotes, downvotes }
}

/// Whether `e` is what a creation from `title`, `content` and `creator` makes
/// at `created_at` with events lasting `expiration` seconds.
pub open spec fn is_new_event(
    e: EventView,
    title: Seq<char>,
    content: Seq<char>,
    creator: Seq<char>,
    created_at: i64,
    expiration: i64,
) -> bool {
    &&& e.title == title
    &&& e.content == content
    &&& e.creator == creator
    &&& e.upvotes == 0
    &&& e.downvotes == 0
    &&& e.voters.len() == 0
    &&& !e.is_expired
    &&& e.created_at == created_at
    &&& e.expire_at == created_at + expiration
}

/// Builds the event that `req` asks for, created at `created_at` (seconds) and
/// expiring `expiration` seconds later. It has no identifier yet.
pub fn new_event(req: EventAddRequest, created_at: i64, expiration: i64) -> (r: EventInfo)
    requires
        i64::MIN <= created_at + expiration <= i64::MAX,
    ensures
        is_new_event(r@, req.title@, req.content@, req.creator_wallet_address@, created_at, expiration),
        r._id is None,
{
    let r = EventInfo {
        _id: None,
        title: req.title,
        content: req.content,
        creator_wallet_address: req.creator_wallet_address,
        upvotes: 0,
        downvotes: 0,
        voters: Vec::new(),
        is_expired: false,
        expire_at: created_at + expiration,
        created_at,
    };
    assert(r@.voters =~= Seq::<VoterView>::empty());
    r
}

/// Relies on chrono's `Utc::now` and `DateTime::timestamp`: the current time in
/// whole seconds since the epoch. `Utc::now` panics on a clock set before the
/// epoch, so the value is never negative; nothing else is known of it.
#[verifier::external_body]
pub(crate) fn now_seconds() -> (r: i64)
    ensures
        0 <= r,
{
    chrono::Utc::now().timestamp()
}

/// Whether `r` is what `new_event_now` gives when the clock reads `now`: an
/// event made at `now` exactly when its deadline fits in 64 bits.
pub open spec fn made_at(
    r: Option<EventInfo>,
    title: Seq<char>,
    content: Seq<char>,
    creator: Seq<char>,
    now: i64,
    expiration: i64,
) -> bool {
    &&& 0 <= now
    &&& (r is Some <==> i64::MIN <= now + expiration <= i64::MAX)
    &&& (r matches Some(e) ==> e._id is None && is_new_event(e@, title, content, creator, now, expiration))
}

/// Builds the event that `req` asks for, created now. `None` when its deadline,
/// `expiration` seconds from now, does not fit in 64 bits; never when
/// `expiration` is not positive.
pub fn new_event_now(req: EventAddRequest, expiration: i64) -> (r: Option<EventInfo>)
    ensures
        exists|now: i64|
            #[trigger] made_at(r, req.title@, req.content@, req.creator_wallet_address@, now, expiration),
        expiration <= 0 ==> r is Some,
{
    let now = now_seconds();
    let ghost title = req.title@;
    let ghost content = req.content@;
    let ghost creator = req.creator_wallet_address@;
    let r = match now.checked_add(expiration) {
        Some(_) => Some(new_event(req, now, expiration)),
        None => None,
    };
    assert(made_at(r, title, content, creator, now, expiration));
    r
}

} // verus!
