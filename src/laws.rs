//! Properties that hold across several operations or over every sequence of
//! votes, stated over the abstract views used by the operations' contracts.

use vstd::prelude::*;

use crate::envelope::Mode;
use crate::event::{EventView, VoterView};
use crate::doc_id::{id_bytes_of_text, is_id_text};
use crate::lifecycle::ExpiredVotePolicy;
use crate::store::{
    add_event_spec, cast_vote_spec, expire_event_spec, lemma_index_of_id, lookup_id, has_id, has_title, index_of_id, lookup_title,
    not_expired, stored_new_event, vote_step, well_formed,
};

verus! {

/// The event after the votes `vs`, cast in order.
pub open spec fn votes_applied(e: EventView, vs: Seq<VoterView>) -> EventView
    decreases vs.len(),
{
    if vs.len() == 0 {
        e
    } else {
        vote_step(votes_applied(e, vs.drop_last()), vs.last())
    }
}

/// The wallet addresses of a list of voters, in order.
pub open spec fn addresses(vs: Seq<VoterView>) -> Seq<Seq<char>> {
    vs.map_values(|v: VoterView| v.address)
}

proof fn lemma_votes_keep_addresses(e: EventView, vs: Seq<VoterView>)
    requires
        e.voters.len() == 0,
    ensures
        addresses(votes_applied(e, vs).voters).no_duplicates(),
        addresses(votes_applied(e, vs).voters).to_set() == addresses(vs).to_set(),
    decreases vs.len(),
{
    if vs.len() == 0 {
        assert(addresses(e.voters) =~= Seq::<Seq<char>>::empty());
        assert(addresses(vs) =~= Seq::<Seq<char>>::empty());
    } else {
        let rest = vs.drop_last();
        let v = vs.last();
        lemma_votes_keep_addresses(e, rest);
        let before = votes_applied(e, rest).voters;
        let after = votes_applied(e, vs).voters;
        assert(addresses(vs) =~= addresses(rest).push(v.address));
        addresses(rest).lemma_push_to_set_commute(v.address);
        if exists|i: int| 0 <= i < before.len() && (#[trigger] before[i]).address == v.address {
            let i = choose|i: int| 0 <= i < before.len() && (#[trigger] before[i]).address == v.address;
            assert(addresses(before)[i] == v.address);
            assert(addresses(before).to_set().contains(v.address));
            assert(addresses(vs).to_set() =~= addresses(rest).to_set());
        } else {
            assert(after == before.push(v));
            assert(addresses(after) =~= addresses(before).push(v.address));
            addresses(before).lemma_push_to_set_commute(v.address);
            assert forall|i: int| 0 <= i < addresses(before).len() implies addresses(before)[i] != v.address by {
                assert(before[i].address == addresses(before)[i]);
            }
        }
    }
}

/// Starting from an event without voters, after any sequence of votes the event
/// holds one voter per distinct wallet address among those votes; in
/// particular, as many voters as votes when all addresses differ.
pub proof fn voters_count_distinct_addresses(e: EventView, vs: Seq<VoterView>)
    requires
        e.voters.len() == 0,
    ensures
        votes_applied(e, vs).voters.len() == addresses(vs).to_set().len(),
        addresses(vs).no_duplicates() ==> votes_applied(e, vs).voters.len() == vs.len(),
{
    lemma_votes_keep_addresses(e, vs);
    addresses(votes_applied(e, vs).voters).unique_seq_to_set();
    if addresses(vs).no_duplicates() {
        addresses(vs).unique_seq_to_set();
    }
}

/// Every vote adds one to the sum of the tallies, whether or not its voter was
/// already recorded, as long as that sum stays within 16 bits.
pub proof fn tallies_count_votes(e: EventView, vs: Seq<VoterView>)
    requires
        e.upvotes + e.downvotes + vs.len() <= u16::MAX,
    ensures
        votes_applied(e, vs).upvotes + votes_applied(e, vs).downvotes == e.upvotes + e.downvotes
            + vs.len(),
    decreases vs.len(),
{
    if vs.len() > 0 {
        tallies_count_votes(e, vs.drop_last());
    }
}

/// The store after the votes `vs`, cast in order on the event whose
/// identifier is written `id_text`, on an attached store that accepts votes on
/// expired events.
pub open spec fn casts_applied(s: Seq<EventView>, id_text: Seq<char>, vs: Seq<VoterView>) -> Seq<EventView>
    decreases vs.len(),
{
    if vs.len() == 0 {
        s
    } else {
        cast_vote_spec(casts_applied(s, id_text, vs.drop_last()), Mode::On, ExpiredVotePolicy::Accept, id_text, vs.last()).0
    }
}

proof fn lemma_casts_apply_votes(s: Seq<EventView>, id_text: Seq<char>, vs: Seq<VoterView>, e: EventView)
    requires
        well_formed(s),
        is_id_text(id_text),
        lookup_id(s, id_bytes_of_text(id_text)) == Some(e),
    ensures
        well_formed(casts_applied(s, id_text, vs)),
        lookup_id(casts_applied(s, id_text, vs), id_bytes_of_text(id_text)) == Some(votes_applied(e, vs)),
    decreases vs.len(),
{
    let id = id_bytes_of_text(id_text);
    if vs.len() > 0 {
        lemma_casts_apply_votes(s, id_text, vs.drop_last(), e);
        let p = casts_applied(s, id_text, vs.drop_last());
        let i = index_of_id(p, id);
        let q = p.update(i, vote_step(p[i], vs.last()));
        assert(casts_applied(s, id_text, vs) == q);
        assert forall|a: int, b: int|
            0 <= a < q.len() && 0 <= b < q.len() && a != b implies (#[trigger] q[a]).title != (#[trigger] q[b]).title
                && q[a].id != q[b].id by {
            assert(q[a].title == p[a].title && q[a].id == p[a].id);
            assert(q[b].title == p[b].title && q[b].id == p[b].id);
        }
        lemma_index_of_id(q, id, i);
    }
}

/// On the store, starting from an event without voters, the votes cast on it
/// one after another leave one voter per distinct wallet address among them,
/// and add one to its tallies per vote while the sum stays within 16 bits.
pub proof fn store_votes_on_event(s: Seq<EventView>, id_text: Seq<char>, vs: Seq<VoterView>, e: EventView)
    requires
        well_formed(s),
        is_id_text(id_text),
        lookup_id(s, id_bytes_of_text(id_text)) == Some(e),
    ensures
        lookup_id(casts_applied(s, id_text, vs), id_bytes_of_text(id_text)) matches Some(after) && {
            &&& e.voters.len() == 0 ==> after.voters.len() == addresses(vs).to_set().len()
            &&& e.upvotes + e.downvotes + vs.len() <= u16::MAX ==> after.upvotes + after.downvotes
                == e.upvotes + e.downvotes + vs.len()
        },
{
    lemma_casts_apply_votes(s, id_text, vs, e);
    if e.voters.len() == 0 {
        voters_count_distinct_addresses(e, vs);
    }
    if e.upvotes + e.downvotes + vs.len() <= u16::MAX {
        tallies_count_votes(e, vs);
    }
}

/// The listing of active events holds no expired event.
pub proof fn listing_has_no_expired(s: Seq<EventView>)
    ensures
        forall|i: int| 0 <= i < not_expired(s).len() ==> !(#[trigger] not_expired(s)[i]).is_expired,
    decreases s.len(),
{
    if s.len() > 0 {
        listing_has_no_expired(s.drop_last());
    }
}

/// A second creation with the same title stores nothing and hands back the
/// event of the first: the store then holds exactly one event with that title.
pub proof fn add_event_twice_stores_once(
    s: Seq<EventView>,
    title: Seq<char>,
    content: Seq<char>,
    creator: Seq<char>,
    created_at: i64,
    expiration: i64,
    fresh: Seq<u8>,
    content2: Seq<char>,
    creator2: Seq<char>,
    created_at2: i64,
    expiration2: i64,
    fresh2: Seq<u8>,
)
    requires
        well_formed(s),
        !has_id(s, fresh),
    ensures
        ({
            let (s1, r1) = add_event_spec(s, Mode::On, title, content, creator, created_at, expiration, fresh);
            let (s2, r2) = add_event_spec(s1, Mode::On, title, content2, creator2, created_at2, expiration2, fresh2);
            &&& s2 == s1
            &&& well_formed(s2)
            &&& has_title(s2, title)
            &&& r2 is Found
            &&& (r1 is Inserted ==> r2->Found_0.id == Some(fresh))
            &&& (r1 is Found ==> r2 == r1)
        }),
{
    let (s1, r1) = add_event_spec(s, Mode::On, title, content, creator, created_at, expiration, fresh);
    if has_title(s, title) {
        let i = choose|i: int| 0 <= i < s.len() && (#[trigger] s[i]).title == title;
        assert(lookup_title(s, title) == s[i]);
    } else {
        let added = stored_new_event(fresh, title, content, creator, created_at, expiration);
        assert(s1 == s.push(added));
        assert(s1[s.len() as int] == added);
        assert forall|i: int, j: int|
            0 <= i < s1.len() && 0 <= j < s1.len() && i != j implies (#[trigger] s1[i]).title
                != (#[trigger] s1[j]).title && s1[i].id != s1[j].id by {
            if i == s.len() {
                assert(s1[j] == s[j]);
                assert(s[j].id != Some(fresh));
            } else if j == s.len() {
                assert(s1[i] == s[i]);
                assert(s[i].id != Some(fresh));
            } else {
                assert(s1[i] == s[i] && s1[j] == s[j]);
            }
        }
        assert(has_title(s1, title));
        let k = choose|k: int| 0 <= k < s1.len() && (#[trigger] s1[k]).title == title;
        assert(k == s.len());
    }
}

/// Expiring the same event twice succeeds both times, and both answers show it
/// expired.
pub proof fn expire_twice_succeeds(s: Seq<EventView>, id_text: Seq<char>)
    requires
        well_formed(s),
    ensures
        ({
            let (s1, r1) = expire_event_spec(s, Mode::On, id_text);
            let (s2, r2) = expire_event_spec(s1, Mode::On, id_text);
            r1 is Expired ==> {
                &&& r2 is Expired
                &&& r1->Expired_0.is_expired
                &&& r2->Expired_0.is_expired
            }
        }),
{
    let (s1, r1) = expire_event_spec(s, Mode::On, id_text);
    if r1 is Expired {
        let id = crate::doc_id::id_bytes_of_text(id_text);
        let i = index_of_id(s, id);
        assert(s1[i].id == Some(id));
        assert(has_id(s1, id));
    }
}

} // verus!
