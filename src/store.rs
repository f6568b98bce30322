//! An event store held in memory, with the lifecycle operations over it:
//! create, list the active events, vote, expire and delete.

use vstd::prelude::*;

use crate::doc_id::{fresh_doc_id, id_bytes_of_text, is_id_text, DocId};
use crate::envelope::{Mode, Outcome, OutcomeView};
use crate::lifecycle::{
    add_event_after_insert, add_event_after_lookup, available_after_fetch, cast_vote_after_lookup,
    cast_vote_after_update, delete_event_after_remove, delete_target, expire_event_after_update,
    id_of_request, keep_not_expired, AddStep, ExpiredVotePolicy, VoteStep,
};
use crate::event::{
    bump, events_view, is_new_event, merged_voters, now_seconds, CastVoteRequest, EventAddRequest,
    EventInfo, EventView, ExpireEventRequest, VoterView,
};

verus! {

/// Whether some event of `s` has the identifier `id`.
pub open spec fn has_id(s: Seq<EventView>, id: Seq<u8>) -> bool {
    exists|i: int| 0 <= i < s.len() && (#[trigger] s[i]).id == Some(id)
}

/// The position of the event with identifier `id`, if `has_id(s, id)`.
pub open spec fn index_of_id(s: Seq<EventView>, id: Seq<u8>) -> int {
    choose|i: int| 0 <= i < s.len() && (#[trigger] s[i]).id == Some(id)
}

/// The event with identifier `id`, if any.
pub open spec fn lookup_id(s: Seq<EventView>, id: Seq<u8>) -> Option<EventView> {
    if has_id(s, id) {
        Some(s[index_of_id(s, id)])
    } else {
        None
    }
}

/// Whether some event of `s` has the title `title`.
pub open spec fn has_title(s: Seq<EventView>, title: Seq<char>) -> bool {
    exists|i: int| 0 <= i < s.len() && (#[trigger] s[i]).title == title
}

/// The event titled `title`, if `has_title(s, title)`.
pub open spec fn lookup_title(s: Seq<EventView>, title: Seq<char>) -> EventView {
    s[choose|i: int| 0 <= i < s.len() && (#[trigger] s[i]).title == title]
}

/// Every stored event has an identifier, and no two share one or a title.
pub open spec fn well_formed(s: Seq<EventView>) -> bool {
    &&& forall|i: int| 0 <= i < s.len() ==> (#[trigger] s[i]).id is Some
    &&& forall|i: int, j: int|
        0 <= i < s.len() && 0 <= j < s.len() && i != j ==> (#[trigger] s[i]).id != (#[trigger] s[j]).id
    &&& forall|i: int, j: int|
        0 <= i < s.len() && 0 <= j < s.len() && i != j ==> (#[trigger] s[i]).title
            != (#[trigger] s[j]).title
}

/// The events of `s` that are not expired, in their order.
pub open spec fn not_expired(s: Seq<EventView>) -> Seq<EventView>
    decreases s.len(),
{
    if s.len() == 0 {
        Seq::empty()
    } else if s.last().is_expired {
        not_expired(s.drop_last())
    } else {
        not_expired(s.drop_last()).push(s.last())
    }
}

/// The event after a vote by `v`.
pub open spec fn vote_step(e: EventView, v: VoterView) -> EventView {
    EventView {
        voters: merged_voters(e.voters, v),
        upvotes: if v.is_upvote { bump(e.upvotes) } else { e.upvotes },
        downvotes: if v.is_upvote { e.downvotes } else { bump(e.downvotes) },
        ..e
    }
}

/// The event after it is marked expired.
pub open spec fn expired_step(e: EventView) -> EventView {
    EventView { is_expired: true, ..e }
}

/// The stored form of a new event.
pub open spec fn stored_new_event(
    id: Seq<u8>,
    title: Seq<char>,
    content: Seq<char>,
    creator: Seq<char>,
    created_at: i64,
    expiration: i64,
) -> EventView {
    EventView {
        id: Some(id),
        title,
        content,
        creator,
        upvotes: 0,
        downvotes: 0,
        voters: Seq::empty(),
        is_expired: false,
        expire_at: (created_at + expiration) as i64,
        created_at,
    }
}

/// The message of a refused insertion under an identifier already in use.
pub open spec fn duplicate_id_message() -> Seq<char> {
    "duplicate key"@
}

/// Creation of an event titled `title` at `created_at` under the fresh
/// identifier `fresh`: the store after it and the outcome.
pub open spec fn add_event_spec(
    s: Seq<EventView>,
    mode: Mode,
    title: Seq<char>,
    content: Seq<char>,
    creator: Seq<char>,
    created_at: i64,
    expiration: i64,
    fresh: Seq<u8>,
) -> (Seq<EventView>, OutcomeView) {
    if mode == Mode::Off {
        (s, OutcomeView::StorageUnavailable)
    } else if has_title(s, title) {
        (s, OutcomeView::Found(lookup_title(s, title)))
    } else if has_id(s, fresh) {
        (s, OutcomeView::InsertFailed(duplicate_id_message()))
    } else {
        (
            s.push(stored_new_event(fresh, title, content, creator, created_at, expiration)),
            OutcomeView::Inserted(fresh),
        )
    }
}

/// Listing of the active events.
pub open spec fn get_all_events_spec(s: Seq<EventView>, mode: Mode) -> OutcomeView {
    if mode == Mode::Off {
        OutcomeView::StorageUnavailable
    } else {
        OutcomeView::Fetched(not_expired(s))
    }
}

/// A vote by `voter` on the event whose identifier is written `id_text`.
pub open spec fn cast_vote_spec(
    s: Seq<EventView>,
    mode: Mode,
    policy: ExpiredVotePolicy,
    id_text: Seq<char>,
    voter: VoterView,
) -> (Seq<EventView>, OutcomeView) {
    if !is_id_text(id_text) {
        (s, OutcomeView::MalformedId)
    } else if mode == Mode::Off {
        (s, OutcomeView::StorageUnavailable)
    } else if !has_id(s, id_bytes_of_text(id_text)) {
        (s, OutcomeView::NotFound)
    } else {
        let i = index_of_id(s, id_bytes_of_text(id_text));
        if policy == ExpiredVotePolicy::Reject && s[i].is_expired {
            (s, OutcomeView::EventExpired)
        } else {
            (s.update(i, vote_step(s[i], voter)), OutcomeView::Voted)
        }
    }
}

/// Marking expired the event whose identifier is written `id_text`.
pub open spec fn expire_event_spec(s: Seq<EventView>, mode: Mode, id_text: Seq<char>) -> (
    Seq<EventView>,
    OutcomeView,
) {
    if !is_id_text(id_text) {
        (s, OutcomeView::MalformedId)
    } else if mode == Mode::Off {
        (s, OutcomeView::StorageUnavailable)
    } else if !has_id(s, id_bytes_of_text(id_text)) {
        (s, OutcomeView::NotFound)
    } else {
        let i = index_of_id(s, id_bytes_of_text(id_text));
        (s.update(i, expired_step(s[i])), OutcomeView::Expired(expired_step(s[i])))
    }
}

/// Deletion of the event whose identifier is written `id_text`, authorized by
/// `api_key` against the configured `delete_key`.
pub open spec fn delete_event_spec(
    s: Seq<EventView>,
    mode: Mode,
    id_text: Seq<char>,
    api_key: Seq<char>,
    delete_key: Seq<char>,
) -> (Seq<EventView>, OutcomeView) {
    if api_key != delete_key {
        (s, OutcomeView::WrongApiKey)
    } else if !is_id_text(id_text) {
        (s, OutcomeView::MalformedId)
    } else if mode == Mode::Off {
        (s, OutcomeView::StorageUnavailable)
    } else if !has_id(s, id_bytes_of_text(id_text)) {
        (s, OutcomeView::NotFound)
    } else {
        let i = index_of_id(s, id_bytes_of_text(id_text));
        (s.remove(i), OutcomeView::Deleted(s[i]))
    }
}

/// Whether `r` and the store `after` are what `add_event_now` gives on the
/// store `before` when the clock reads `now` and the fresh identifier is
/// `fresh`: a creation exactly when the deadline fits in 64 bits, and no change
/// otherwise.
pub open spec fn added_at(
    r: Option<Outcome>,
    before: Seq<EventView>,
    after: Seq<EventView>,
    mode: Mode,
    title: Seq<char>,
    content: Seq<char>,
    creator: Seq<char>,
    now: i64,
    expiration: i64,
    fresh: Seq<u8>,
) -> bool {
    &&& 0 <= now
    &&& (r is Some <==> i64::MIN <= now + expiration <= i64::MAX)
    &&& (r is None ==> after == before)
    &&& (r matches Some(o) ==> (after, o@) == add_event_spec(
        before,
        mode,
        title,
        content,
        creator,
        now,
        expiration,
        fresh,
    ))
}

pub(crate) proof fn lemma_index_of_id(s: Seq<EventView>, id: Seq<u8>, i: int)
    requires
        well_formed(s),
        0 <= i < s.len(),
        s[i].id == Some(id),
    ensures
        has_id(s, id),
        index_of_id(s, id) == i,
        lookup_id(s, id) == Some(s[i]),
{
}

proof fn lemma_lookup_title(s: Seq<EventView>, title: Seq<char>, i: int)
    requires
        well_formed(s),
        0 <= i < s.len(),
        s[i].title == title,
    ensures
        has_title(s, title),
        lookup_title(s, title) == s[i],
{
}

/// Events kept in memory, in the order of their insertion.
pub struct EventStore {
    mode: Mode,
    policy: ExpiredVotePolicy,
    events: Vec<EventInfo>,
}

impl View for EventStore {
    type V = Seq<EventView>;

    closed spec fn view(&self) -> Seq<EventView> {
        events_view(self.events@)
    }
}

impl EventStore {
    /// Whether the store is attached.
    pub closed spec fn spec_mode(&self) -> Mode {
        self.mode
    }

    /// Whether the store is attached.
    pub fn mode(&self) -> (r: Mode)
        ensures
            r == self.spec_mode(),
    {
        self.mode
    }

    /// How the store answers a vote on an expired event.
    pub closed spec fn spec_policy(&self) -> ExpiredVotePolicy {
        self.policy
    }

    /// How the store answers a vote on an expired event.
    pub fn policy(&self) -> (r: ExpiredVotePolicy)
        ensures
            r == self.spec_policy(),
    {
        self.policy
    }

    /// An empty store in the given mode that records votes on expired events.
    pub fn new(mode: Mode) -> (r: EventStore)
        ensures
            r@ == Seq::<EventView>::empty(),
            r.spec_mode() == mode,
            r.spec_policy() == ExpiredVotePolicy::Accept,
            well_formed(r@),
    {
        EventStore::with_policy(mode, ExpiredVotePolicy::Accept)
    }

    /// An empty store in the given mode, answering votes on expired events as
    /// `policy` says.
    pub fn with_policy(mode: Mode, policy: ExpiredVotePolicy) -> (r: EventStore)
        ensures
            r@ == Seq::<EventView>::empty(),
            r.spec_mode() == mode,
            r.spec_policy() == policy,
            well_formed(r@),
    {
        let r = EventStore { mode, policy, events: Vec::new() };
        assert(r@ =~= Seq::<EventView>::empty());
        r
    }

    fn position_of_id(&self, id: &DocId) -> (r: Option<usize>)
        ensures
            r matches Some(i) ==> i < self@.len() && self@[i as int].id == Some(id@),
            r is None ==> !has_id(self@, id@),
    {
        let mut i: usize = 0;
        while i < self.events.len()
            invariant
                0 <= i <= self.events@.len(),
                self@ == events_view(self.events@),
                forall|j: int| 0 <= j < i ==> (#[trigger] self@[j]).id != Some(id@),
            decreases self.events@.len() - i,
        {
            match &self.events[i]._id {
                Some(d) => {
                    if d.same(id) {
                        return Some(i);
                    }
                },
                None => {},
            }
            i = i + 1;
        }
        None
    }

    fn position_of_title(&self, title: &String) -> (r: Option<usize>)
        ensures
            r matches Some(i) ==> i < self@.len() && self@[i as int].title == title@,
            r is None ==> !has_title(self@, title@),
    {
        let mut i: usize = 0;
        while i < self.events.len()
            invariant
                0 <= i <= self.events@.len(),
                self@ == events_view(self.events@),
                forall|j: int| 0 <= j < i ==> (#[trigger] self@[j]).title != title@,
            decreases self.events@.len() - i,
        {
            if self.events[i].title == *title {
                return Some(i);
            }
            i = i + 1;
        }
        None
    }

    /// The event titled `title`, if one is stored.
    pub fn find_by_title(&self, title: &String) -> (r: Option<EventInfo>)
        requires
            well_formed(self@),
        ensures
            r is Some <==> has_title(self@, title@),
            r matches Some(e) ==> e@ == lookup_title(self@, title@),
    {
        match self.position_of_title(title) {
            Some(i) => {
                proof {
                    lemma_lookup_title(self@, title@, i as int);
                }
                Some(self.events[i].clone())
            },
            None => None,
        }
    }

    /// The event with identifier `id`, if one is stored.
    pub fn find_by_id(&self, id: &DocId) -> (r: Option<EventInfo>)
        requires
            well_formed(self@),
        ensures
            r matches Some(e) ==> lookup_id(self@, id@) == Some(e@),
            r is None ==> lookup_id(self@, id@) is None,
    {
        match self.position_of_id(id) {
            Some(i) => {
                proof {
                    lemma_index_of_id(self@, id@, i as int);
                }
                Some(self.events[i].clone())
            },
            None => None,
        }
    }

    /// Every stored event that is not expired, in the order of insertion.
    pub fn list_where_not_expired(&self) -> (r: Vec<EventInfo>)
        ensures
            events_view(r@) == not_expired(self@),
            forall|i: int| 0 <= i < r@.len() ==> !(#[trigger] r@[i]).is_expired,
    {
        keep_not_expired(&self.events)
    }

    /// Creates the event that `req` asks for unless one with its title exists:
    /// created at `created_at`, expiring `expiration` seconds later, and stored
    /// under `fresh`.
    pub fn add_event(&mut self, req: EventAddRequest, created_at: i64, expiration: i64, fresh: DocId) -> (r: Outcome)
        requires
            well_formed(old(self)@),
            i64::MIN <= created_at + expiration <= i64::MAX,
        ensures
            (final(self)@, r@) == add_event_spec(
                old(self)@,
                old(self).spec_mode(),
                req.title@,
                req.content@,
                req.creator_wallet_address@,
                created_at,
                expiration,
                fresh@,
            ),
            final(self).spec_mode() == old(self).spec_mode(),
            final(self).spec_policy() == old(self).spec_policy(),
            well_formed(final(self)@),
            r@ matches OutcomeView::Inserted(id) ==> (lookup_id(final(self)@, id) matches Some(e)
                && is_new_event(e, req.title@, req.content@, req.creator_wallet_address@, created_at, expiration)),
    {
        if self.mode == Mode::Off {
            return Outcome::StorageUnavailable;
        }
        let ghost title = req.title@;
        let ghost content = req.content@;
        let ghost creator = req.creator_wallet_address@;
        let found = self.find_by_title(&req.title);
        let mut ev = match add_event_after_lookup(found, req, created_at, expiration) {
            AddStep::Reply(o) => {
                return o;
            },
            AddStep::Insert(ev) => ev,
        };
        match self.position_of_id(&fresh) {
            Some(_) => {
                return add_event_after_insert(Err("duplicate key".to_string()));
            },
            None => {},
        }
        ev._id = Some(fresh);
        let ghost before = self@;
        self.events.push(ev);
        proof {
            let added = stored_new_event(fresh@, title, content, creator, created_at, expiration);
            assert(ev@.voters =~= added.voters);
            assert(self@ =~= before.push(added));
            assert forall|i: int, j: int|
                0 <= i < self@.len() && 0 <= j < self@.len() && i != j implies (#[trigger] self@[i]).title
                    != (#[trigger] self@[j]).title by {
                if i == before.len() {
                    assert(before[j].title == self@[j].title);
                } else if j == before.len() {
                    assert(before[i].title == self@[i].title);
                }
            }
            assert forall|i: int, j: int|
                0 <= i < self@.len() && 0 <= j < self@.len() && i != j implies (#[trigger] self@[i]).id
                    != (#[trigger] self@[j]).id by {
                if i == before.len() {
                    assert(before[j].id == self@[j].id);
                } else if j == before.len() {
                    assert(before[i].id == self@[i].id);
                }
            }
            lemma_index_of_id(self@, fresh@, before.len() as int);
        }
        add_event_after_insert(Ok(fresh))
    }

    /// `add_event` at the current time, under an identifier drawn afresh.
    /// `None`, with the store unchanged, when the deadline `expiration` seconds
    /// from now does not fit in 64 bits; never when `expiration` is not
    /// positive.
    pub fn add_event_now(&mut self, req: EventAddRequest, expiration: i64) -> (r: Option<Outcome>)
        requires
            well_formed(old(self)@),
        ensures
            well_formed(final(self)@),
            final(self).spec_mode() == old(self).spec_mode(),
            final(self).spec_policy() == old(self).spec_policy(),
            exists|now: i64, fresh: Seq<u8>|
                #[trigger] added_at(
                    r,
                    old(self)@,
                    final(self)@,
                    old(self).spec_mode(),
                    req.title@,
                    req.content@,
                    req.creator_wallet_address@,
                    now,
                    expiration,
                    fresh,
                ),
            expiration <= 0 ==> r is Some,
    {
        let now = now_seconds();
        let ghost title = req.title@;
        let ghost content = req.content@;
        let ghost creator = req.creator_wallet_address@;
        let ghost before = self@;
        let ghost mode = self.mode;
        let fresh = fresh_doc_id();
        let r = match now.checked_add(expiration) {
            Some(_) => Some(self.add_event(req, now, expiration, fresh)),
            None => None,
        };
        assert(added_at(r, before, self@, mode, title, content, creator, now, expiration, fresh@));
        r
    }

    /// The events that are not expired.
    pub fn get_all_events(&self) -> (r: Outcome)
        requires
            well_formed(self@),
        ensures
            r@ == get_all_events_spec(self@, self.spec_mode()),
    {
        if self.mode == Mode::Off {
            return Outcome::StorageUnavailable;
        }
        available_after_fetch(Ok(self.list_where_not_expired()))
    }

    /// Records the vote of `req.voter` on the event whose identifier is written
    /// `req._id`; an expired event takes the vote unless the store's policy
    /// refuses it.
    pub fn cast_vote_event(&mut self, req: CastVoteRequest) -> (r: Outcome)
        requires
            well_formed(old(self)@),
        ensures
            (final(self)@, r@) == cast_vote_spec(
                old(self)@,
                old(self).spec_mode(),
                old(self).spec_policy(),
                req._id@,
                req.voter@,
            ),
            final(self).spec_mode() == old(self).spec_mode(),
            final(self).spec_policy() == old(self).spec_policy(),
            well_formed(final(self)@),
            !is_id_text(req._id@) ==> r is MalformedId && final(self)@ == old(self)@,
            old(self).spec_mode() == Mode::On && is_id_text(req._id@) && lookup_id(old(self)@, id_bytes_of_text(req._id@)) is None
                ==> r is NotFound,
    {
        let id = match id_of_request(&req._id) {
            Ok(id) => id,
            Err(o) => {
                return o;
            },
        };
        if self.mode == Mode::Off {
            return Outcome::StorageUnavailable;
        }
        let pos = self.position_of_id(&id);
        let found = match pos {
            Some(i) => Some(self.events[i].clone()),
            None => None,
        };
        let update = match cast_vote_after_lookup(found, req.voter, self.policy) {
            VoteStep::Reply(o) => {
                return o;
            },
            VoteStep::Update(u) => u,
        };
        let i = match pos {
            Some(i) => i,
            None => {
                return Outcome::NotFound;
            },
        };
        proof {
            lemma_index_of_id(self@, id@, i as int);
        }
        let ghost before = self@;
        let ev = self.events.remove(i);
        let voted = EventInfo {
            _id: ev._id,
            title: ev.title,
            content: ev.content,
            creator_wallet_address: ev.creator_wallet_address,
            upvotes: update.upvotes,
            downvotes: update.downvotes,
            voters: update.voters,
            is_expired: ev.is_expired,
            expire_at: ev.expire_at,
            created_at: ev.created_at,
        };
        self.events.insert(i, voted);
        proof {
            assert(self@ =~= before.update(i as int, vote_step(before[i as int], req.voter@)));
            assert forall|a: int| 0 <= a < self@.len() && a != i implies #[trigger] self@[a] == before[a] by {}
        }
        cast_vote_after_update(Ok(true))
    }

    /// Marks expired the event whose identifier is written `req._id`, and hands
    /// it back as it now stands.
    pub fn expire_event(&mut self, req: ExpireEventRequest) -> (r: Outcome)
        requires
            well_formed(old(self)@),
        ensures
            (final(self)@, r@) == expire_event_spec(old(self)@, old(self).spec_mode(), req._id@),
            final(self).spec_mode() == old(self).spec_mode(),
            final(self).spec_policy() == old(self).spec_policy(),
            well_formed(final(self)@),
            !is_id_text(req._id@) ==> r is MalformedId && final(self)@ == old(self)@,
            r is Expired ==> (lookup_id(final(self)@, id_bytes_of_text(req._id@)) matches Some(e) && e.is_expired),
    {
        let id = match id_of_request(&req._id) {
            Ok(id) => id,
            Err(o) => {
                return o;
            },
        };
        if self.mode == Mode::Off {
            return Outcome::StorageUnavailable;
        }
        match self.position_of_id(&id) {
            None => expire_event_after_update(Ok(None)),
            Some(i) => {
                proof {
                    lemma_index_of_id(self@, id@, i as int);
                }
                let ghost before = self@;
                let mut ev = self.events.remove(i);
                ev.is_expired = true;
                let answer = ev.clone();
                self.events.insert(i, ev);
                proof {
                    assert(self@ =~= before.update(i as int, expired_step(before[i as int])));
                    assert forall|a: int| 0 <= a < self@.len() && a != i implies #[trigger] self@[a] == before[a] by {}
                    lemma_index_of_id(self@, id@, i as int);
                }
                expire_event_after_update(Ok(Some(answer)))
            },
        }
    }

    /// Removes the event whose identifier is written `id`, provided `api_key`
    /// is the configured `delete_key`; with a wrong key nothing is read or
    /// changed.
    pub fn delete_event(&mut self, id: &String, api_key: &String, delete_key: &String) -> (r: Outcome)
        requires
            well_formed(old(self)@),
        ensures
            (final(self)@, r@) == delete_event_spec(old(self)@, old(self).spec_mode(), id@, api_key@, delete_key@),
            final(self).spec_mode() == old(self).spec_mode(),
            final(self).spec_policy() == old(self).spec_policy(),
            well_formed(final(self)@),
            api_key@ != delete_key@ ==> r is WrongApiKey && final(self)@ == old(self)@,
            api_key@ == delete_key@ && !is_id_text(id@) ==> r is MalformedId && final(self)@ == old(self)@,
            r is Deleted ==> lookup_id(final(self)@, id_bytes_of_text(id@)) is None,
    {
        let doc = match delete_target(id, api_key, delete_key) {
            Ok(doc) => doc,
            Err(o) => {
                return o;
            },
        };
        if self.mode == Mode::Off {
            return Outcome::StorageUnavailable;
        }
        match self.position_of_id(&doc) {
            None => delete_event_after_remove(Ok(None)),
            Some(i) => {
                proof {
                    lemma_index_of_id(self@, doc@, i as int);
                }
                let ghost before = self@;
                let ev = self.events.remove(i);
                proof {
                    assert(self@ =~= before.remove(i as int));
                    assert forall|a: int| 0 <= a < self@.len() implies (#[trigger] self@[a]).id != Some(doc@) by {
                        if a < i {
                            assert(self@[a] == before[a]);
                        } else {
                            assert(self@[a] == before[a + 1]);
                        }
                    }
                }
                delete_event_after_remove(Ok(Some(ev)))
            },
        }
    }
}

} // verus!
