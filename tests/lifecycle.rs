use bitrader_events::doc_id::DocId;
use bitrader_events::envelope::{Mode, Nill, Outcome, Response};
use bitrader_events::event::{
    bump_count, merge_vote, new_event, new_event_now, CastVoteRequest, EventAddRequest, EventInfo,
    ExpireEventRequest, Voter,
};
use bitrader_events::lifecycle::{
    add_event_after_insert, add_event_after_lookup, available_after_fetch, cast_vote_after_lookup,
    cast_vote_after_update, delete_event_after_remove, delete_target, expire_event_after_update,
    id_of_request, AddStep, ExpiredVotePolicy, VoteStep,
};
use bitrader_events::store::EventStore;

fn id_text(id: &DocId) -> String {
    id.bytes.iter().map(|b| format!("{:02x}", b)).collect()
}

fn request(title: &str, content: &str, creator: &str) -> EventAddRequest {
    EventAddRequest {
        title: title.to_string(),
        content: content.to_string(),
        creator_wallet_address: creator.to_string(),
        upvotes: None,
        downvotes: None,
        voters: None,
        is_expired: None,
        expire_at: None,
        created_at: None,
    }
}

fn voter(address: &str, is_upvote: bool, score: u32) -> Voter {
    Voter { event_owner_wallet_address: address.to_string(), is_upvote, score }
}

fn id_of(n: u8) -> DocId {
    DocId { bytes: [0x65, 0x2f, 0x1a, 0x00, 0x11, 0x22, 0x33, 0x44, 0x55, 0x66, 0x77, n] }
}

fn stored_one(store: &mut EventStore) -> DocId {
    let id = id_of(1);
    match store.add_event(request("t1", "c", "w"), 1_700_000_000, 3600, id) {
        Outcome::Inserted(got) => assert_eq!(got.bytes, id.bytes),
        other => panic!("unexpected outcome {:?}", other),
    }
    id
}

fn vote(id: &DocId, address: &str, is_upvote: bool, score: u32) -> CastVoteRequest {
    CastVoteRequest { _id: id_text(id), voter: voter(address, is_upvote, score) }
}

fn lookup(store: &EventStore, id: &DocId) -> EventInfo {
    store.find_by_id(id).expect("stored event")
}

#[test]
fn create_on_empty_store_inserts() {
    let mut store = EventStore::new(Mode::On);
    let r = store.add_event(request("t1", "c", "w"), 1_700_000_000, 3600, id_of(1));
    assert_eq!(r.status(), 201);
    assert_eq!(r.message(), "INSERTED");
    let e = lookup(&store, &id_of(1));
    assert_eq!(e.upvotes, 0);
    assert_eq!(e.downvotes, 0);
    assert!(e.voters.is_empty());
    assert!(!e.is_expired);
}

#[test]
fn created_event_round_trips() {
    let mut store = EventStore::new(Mode::On);
    let id = stored_one(&mut store);
    let e = lookup(&store, &id);
    assert_eq!(e.title, "t1");
    assert_eq!(e.content, "c");
    assert_eq!(e.creator_wallet_address, "w");
    assert_eq!(e.created_at, 1_700_000_000);
    assert_eq!(e.expire_at, 1_700_003_600);
    assert_eq!(e._id.map(|d| d.bytes), Some(id.bytes));
}

#[test]
fn repeated_title_is_found_not_inserted() {
    let mut store = EventStore::new(Mode::On);
    let id = stored_one(&mut store);
    let r = store.add_event(request("t1", "other", "x"), 1_700_000_100, 3600, id_of(2));
    assert_eq!(r.status(), 302);
    assert_eq!(r.message(), "FOUND_DOCUMENT");
    match r {
        Outcome::Found(e) => {
            assert_eq!(e._id.map(|d| d.bytes), Some(id.bytes));
            assert_eq!(e.content, "c");
        },
        other => panic!("unexpected outcome {:?}", other),
    }
    assert!(store.find_by_id(&id_of(2)).is_none());
    assert_eq!(store.list_where_not_expired().len(), 1);
}

#[test]
fn listing_after_create_twice_has_one_event() {
    let mut store = EventStore::new(Mode::On);
    stored_one(&mut store);
    store.add_event(request("t1", "c", "w"), 1_700_000_000, 3600, id_of(2));
    let r = store.get_all_events();
    assert_eq!(r.status(), 200);
    assert_eq!(r.message(), "FETCHED");
    match r {
        Outcome::Fetched(a) => assert_eq!(a.events.len(), 1),
        other => panic!("unexpected outcome {:?}", other),
    }
}

#[test]
fn first_vote_is_recorded() {
    let mut store = EventStore::new(Mode::On);
    let id = stored_one(&mut store);
    let r = store.cast_vote_event(vote(&id, "wA", true, 3));
    assert_eq!(r.status(), 200);
    assert_eq!(r.message(), "UPDATED");
    let e = lookup(&store, &id);
    assert_eq!(e.voters.len(), 1);
    assert_eq!(e.voters[0].event_owner_wallet_address, "wA");
    assert!(e.voters[0].is_upvote);
    assert_eq!(e.voters[0].score, 3);
    assert_eq!(e.upvotes, 1);
    assert_eq!(e.downvotes, 0);
}

#[test]
fn repeated_vote_counts_again_but_keeps_one_voter() {
    let mut store = EventStore::new(Mode::On);
    let id = stored_one(&mut store);
    store.cast_vote_event(vote(&id, "wA", true, 3));
    let r = store.cast_vote_event(vote(&id, "wA", true, 3));
    assert_eq!(r.status(), 200);
    let e = lookup(&store, &id);
    assert_eq!(e.upvotes, 2);
    assert_eq!(e.downvotes, 0);
    assert_eq!(e.voters.len(), 1);
}

#[test]
fn repeated_voter_keeps_first_entry() {
    let mut store = EventStore::new(Mode::On);
    let id = stored_one(&mut store);
    store.cast_vote_event(vote(&id, "wA", true, 3));
    store.cast_vote_event(vote(&id, "wA", false, 9));
    let e = lookup(&store, &id);
    assert_eq!(e.voters.len(), 1);
    assert!(e.voters[0].is_upvote);
    assert_eq!(e.voters[0].score, 3);
    assert_eq!(e.upvotes, 1);
    assert_eq!(e.downvotes, 1);
}

#[test]
fn distinct_voters_are_all_recorded() {
    let mut store = EventStore::new(Mode::On);
    let id = stored_one(&mut store);
    store.cast_vote_event(vote(&id, "a", true, 1));
    store.cast_vote_event(vote(&id, "b", false, 1));
    store.cast_vote_event(vote(&id, "c", true, 1));
    store.cast_vote_event(vote(&id, "a", true, 1));
    let e = lookup(&store, &id);
    assert_eq!(e.voters.len(), 3);
    assert_eq!(e.upvotes as u32 + e.downvotes as u32, 4);
}

#[test]
fn vote_on_missing_event_is_not_found() {
    let mut store = EventStore::new(Mode::On);
    stored_one(&mut store);
    let r = store.cast_vote_event(vote(&id_of(9), "wA", true, 3));
    assert_eq!(r.status(), 404);
    assert_eq!(r.message(), "NOT_FOUND_DOCUMENT");
}

#[test]
fn vote_with_malformed_id_is_rejected() {
    let mut store = EventStore::new(Mode::On);
    stored_one(&mut store);
    let r = store.cast_vote_event(CastVoteRequest { _id: "not-an-id".to_string(), voter: voter("wA", true, 1) });
    assert_eq!(r.status(), 400);
    assert_eq!(r.message(), "MALFORMED_ID");
}

#[test]
fn expire_marks_event_and_hides_it() {
    let mut store = EventStore::new(Mode::On);
    let id = stored_one(&mut store);
    let r = store.expire_event(ExpireEventRequest { _id: id_text(&id) });
    assert_eq!(r.status(), 200);
    match r {
        Outcome::Expired(e) => assert!(e.is_expired),
        other => panic!("unexpected outcome {:?}", other),
    }
    assert!(lookup(&store, &id).is_expired);
    assert!(store.list_where_not_expired().is_empty());
}

#[test]
fn expire_twice_succeeds_both_times() {
    let mut store = EventStore::new(Mode::On);
    let id = stored_one(&mut store);
    for _ in 0..2 {
        match store.expire_event(ExpireEventRequest { _id: id_text(&id) }) {
            Outcome::Expired(e) => assert!(e.is_expired),
            other => panic!("unexpected outcome {:?}", other),
        }
    }
}

#[test]
fn expire_missing_event_is_not_found() {
    let mut store = EventStore::new(Mode::On);
    stored_one(&mut store);
    let r = store.expire_event(ExpireEventRequest { _id: id_text(&id_of(7)) });
    assert_eq!(r.status(), 404);
}

#[test]
fn listing_skips_expired_events() {
    let mut store = EventStore::new(Mode::On);
    let a = stored_one(&mut store);
    store.add_event(request("t2", "c2", "w2"), 1_700_000_000, 60, id_of(2));
    store.add_event(request("t3", "c3", "w3"), 1_700_000_000, 60, id_of(3));
    store.expire_event(ExpireEventRequest { _id: id_text(&a) });
    let listed = store.list_where_not_expired();
    assert_eq!(listed.len(), 2);
    assert!(listed.iter().all(|e| !e.is_expired));
    assert_eq!(listed[0].title, "t2");
    assert_eq!(listed[1].title, "t3");
}

#[test]
fn delete_with_wrong_key_then_right_key() {
    let mut store = EventStore::new(Mode::On);
    let id = stored_one(&mut store);
    let key = "s3cret".to_string();
    let r = store.delete_event(&id_text(&id), &"wrong-key".to_string(), &key);
    assert_eq!(r.status(), 403);
    assert_eq!(r.message(), "WRONG_API_KEY");
    assert!(store.find_by_id(&id).is_some());
    let r = store.delete_event(&id_text(&id), &key, &key);
    assert_eq!(r.status(), 200);
    assert_eq!(r.message(), "DELETED");
    match r {
        Outcome::Deleted(e) => assert_eq!(e.title, "t1"),
        other => panic!("unexpected outcome {:?}", other),
    }
    assert!(store.find_by_id(&id).is_none());
    let r = store.delete_event(&id_text(&id), &key, &key);
    assert_eq!(r.status(), 404);
}

#[test]
fn detached_store_is_unavailable() {
    let mut store = EventStore::new(Mode::Off);
    assert_eq!(store.mode(), Mode::Off);
    let r = store.add_event(request("t1", "c", "w"), 1_700_000_000, 3600, id_of(1));
    assert_eq!(r.status(), 503);
    assert_eq!(r.message(), "STORAGE_UNAVAILABLE");
    assert_eq!(store.get_all_events().status(), 503);
    assert_eq!(store.cast_vote_event(vote(&id_of(1), "a", true, 1)).status(), 503);
    assert_eq!(store.expire_event(ExpireEventRequest { _id: id_text(&id_of(1)) }).status(), 503);
    let key = "k".to_string();
    assert_eq!(store.delete_event(&id_text(&id_of(1)), &key, &key).status(), 503);
}

#[test]
fn insertion_under_a_used_identifier_is_refused() {
    let mut store = EventStore::new(Mode::On);
    let id = stored_one(&mut store);
    let r = store.add_event(request("t2", "c", "w"), 1_700_000_000, 3600, id);
    assert_eq!(r.status(), 406);
    assert_eq!(r.message(), "duplicate key");
    assert_eq!(store.list_where_not_expired().len(), 1);
}

#[test]
fn creation_at_current_time() {
    let mut store = EventStore::new(Mode::On);
    let r = store.add_event_now(request("now", "c", "w"), 600).expect("deadline fits");
    let id = match r {
        Outcome::Inserted(id) => id,
        other => panic!("unexpected outcome {:?}", other),
    };
    let e = lookup(&store, &id);
    assert!(e.created_at > 1_600_000_000);
    assert_eq!(e.expire_at, e.created_at + 600);
    assert!(store.add_event_now(request("late", "c", "w"), i64::MAX).is_none());
    assert_eq!(store.list_where_not_expired().len(), 1);
}

#[test]
fn parse_identifier_text() {
    let id = DocId::parse("507f1f77bcf86cd799439011").expect("valid");
    assert_eq!(id.bytes, [0x50, 0x7f, 0x1f, 0x77, 0xbc, 0xf8, 0x6c, 0xd7, 0x99, 0x43, 0x90, 0x11]);
    let upper = DocId::parse("507F1F77BCF86CD799439011").expect("valid");
    assert!(upper.same(&id));
    assert!(DocId::parse("507f1f77bcf86cd79943901").is_none());
    assert!(DocId::parse("507f1f77bcf86cd7994390111").is_none());
    assert!(DocId::parse("507f1f77bcf86cd79943901g").is_none());
    assert!(DocId::parse("").is_none());
}

#[test]
fn identifiers_compare_by_bytes() {
    assert!(id_of(1).same(&id_of(1)));
    assert!(!id_of(1).same(&id_of(2)));
}

#[test]
fn counts_wrap_past_the_largest_value() {
    assert_eq!(bump_count(0), 1);
    assert_eq!(bump_count(41), 42);
    assert_eq!(bump_count(u16::MAX), 0);
}

#[test]
fn merge_vote_on_empty_and_downvote() {
    let e = new_event(request("t", "c", "w"), 10, 5);
    let u = merge_vote(e, voter("x", false, 7));
    assert_eq!(u.voters.len(), 1);
    assert_eq!(u.upvotes, 0);
    assert_eq!(u.downvotes, 1);
}

#[test]
fn add_voter_keeps_first_match() {
    let mut e = new_event(request("t", "c", "w"), 10, 5);
    e.voters.push(voter("x", true, 1));
    e.voters.push(voter("y", false, 2));
    let vs = e.clone().add_voter(voter("y", true, 99));
    assert_eq!(vs.len(), 2);
    assert_eq!(vs[1].score, 2);
    let vs = e.add_voter(voter("z", true, 5));
    assert_eq!(vs.len(), 3);
    assert_eq!(vs[2].event_owner_wallet_address, "z");
}

#[test]
fn new_event_fields() {
    let e = new_event(request("t", "c", "w"), 100, 50);
    assert!(e._id.is_none());
    assert_eq!(e.created_at, 100);
    assert_eq!(e.expire_at, 150);
    assert!(!e.is_expired);
    let now = new_event_now(request("t", "c", "w"), 50).expect("deadline fits");
    assert_eq!(now.expire_at - now.created_at, 50);
    assert!(new_event_now(request("t", "c", "w"), i64::MAX).is_none());
}

#[test]
fn votes_on_expired_events_follow_the_policy() {
    let mut store = EventStore::new(Mode::On);
    assert_eq!(store.policy(), ExpiredVotePolicy::Accept);
    let id = stored_one(&mut store);
    store.expire_event(ExpireEventRequest { _id: id_text(&id) });
    assert_eq!(store.cast_vote_event(vote(&id, "a", true, 1)).status(), 200);
    assert_eq!(lookup(&store, &id).upvotes, 1);

    let mut strict = EventStore::with_policy(Mode::On, ExpiredVotePolicy::Reject);
    let id = stored_one(&mut strict);
    assert_eq!(strict.cast_vote_event(vote(&id, "a", true, 1)).status(), 200);
    strict.expire_event(ExpireEventRequest { _id: id_text(&id) });
    let r = strict.cast_vote_event(vote(&id, "b", false, 1));
    assert_eq!(r.status(), 409);
    assert_eq!(r.message(), "EVENT_EXPIRED");
    let e = lookup(&strict, &id);
    assert_eq!(e.voters.len(), 1);
    assert_eq!(e.downvotes, 0);
}

#[test]
fn envelope_repeats_status_and_message() {
    let outcome = Outcome::StorageError("connection reset".to_string());
    let r = Response::of(&outcome, Some(Nill::empty()));
    assert_eq!(r.status, 500);
    assert_eq!(r.message, "connection reset");
    assert!(r.data.map(|n| n.0.is_empty()).unwrap_or(false));
    let outcome = Outcome::InsertFailed("E11000".to_string());
    let r: Response<u8> = Response::of(&outcome, None);
    assert_eq!(r.status, 406);
    assert_eq!(r.message, "E11000");
    assert!(r.data.is_none());
    let r: Response<u8> = Response::of(&Outcome::WrongApiKey, Some(1));
    assert_eq!(r.status, 403);
    assert_eq!(r.message, "WRONG_API_KEY");
}

#[test]
fn malformed_id_is_answered_before_storage() {
    let mut store = EventStore::new(Mode::Off);
    let r = store.cast_vote_event(CastVoteRequest { _id: "not-an-id".to_string(), voter: voter("a", true, 1) });
    assert_eq!(r.status(), 400);
    let r = store.expire_event(ExpireEventRequest { _id: "not-an-id".to_string() });
    assert_eq!(r.status(), 400);
    let key = "k".to_string();
    let r = store.delete_event(&"not-an-id".to_string(), &key, &key);
    assert_eq!(r.status(), 400);
    let r = store.delete_event(&"not-an-id".to_string(), &"other".to_string(), &key);
    assert_eq!(r.status(), 403);
}

#[test]
fn creation_steps() {
    let existing = new_event(request("t", "c", "w"), 5, 5);
    match add_event_after_lookup(Some(existing), request("t", "x", "y"), 100, 10) {
        AddStep::Reply(o) => {
            assert_eq!(o.status(), 302);
            match o {
                Outcome::Found(e) => assert_eq!(e.content, "c"),
                other => panic!("unexpected outcome {:?}", other),
            }
        },
        AddStep::Insert(_) => panic!("an existing title must not be inserted"),
    }
    match add_event_after_lookup(None, request("t", "x", "y"), 100, 10) {
        AddStep::Insert(e) => {
            assert_eq!(e.title, "t");
            assert_eq!(e.content, "x");
            assert_eq!(e.creator_wallet_address, "y");
            assert_eq!(e.created_at, 100);
            assert_eq!(e.expire_at, 110);
            assert!(e._id.is_none());
        },
        AddStep::Reply(o) => panic!("unexpected reply {:?}", o),
    }
    assert_eq!(add_event_after_insert(Ok(id_of(3))).status(), 201);
    let r = add_event_after_insert(Err("E11000 duplicate".to_string()));
    assert_eq!(r.status(), 406);
    assert_eq!(r.message(), "E11000 duplicate");
}

#[test]
fn listing_step_drops_expired_events() {
    let mut gone = new_event(request("a", "c", "w"), 1, 1);
    gone.is_expired = true;
    let kept = new_event(request("b", "c", "w"), 1, 1);
    match available_after_fetch(Ok(vec![gone, kept])) {
        Outcome::Fetched(a) => {
            assert_eq!(a.events.len(), 1);
            assert_eq!(a.events[0].title, "b");
        },
        other => panic!("unexpected outcome {:?}", other),
    }
    assert_eq!(available_after_fetch(Err("down".to_string())).status(), 500);
}

#[test]
fn vote_steps() {
    assert!(matches!(cast_vote_after_lookup(None, voter("a", true, 1), ExpiredVotePolicy::Accept), VoteStep::Reply(Outcome::NotFound)));
    let mut expired = new_event(request("a", "c", "w"), 1, 1);
    expired.is_expired = true;
    assert!(matches!(
        cast_vote_after_lookup(Some(expired.clone()), voter("a", true, 1), ExpiredVotePolicy::Reject),
        VoteStep::Reply(Outcome::EventExpired)
    ));
    match cast_vote_after_lookup(Some(expired), voter("a", false, 1), ExpiredVotePolicy::Accept) {
        VoteStep::Update(u) => {
            assert_eq!(u.voters.len(), 1);
            assert_eq!(u.downvotes, 1);
        },
        VoteStep::Reply(o) => panic!("unexpected reply {:?}", o),
    }
    assert_eq!(cast_vote_after_update(Ok(true)).status(), 200);
    assert_eq!(cast_vote_after_update(Ok(false)).status(), 404);
    assert_eq!(cast_vote_after_update(Err("write failed".to_string())).status(), 500);
}

#[test]
fn expire_and_delete_steps() {
    let e = new_event(request("a", "c", "w"), 1, 1);
    assert_eq!(expire_event_after_update(Ok(Some(e.clone()))).status(), 200);
    assert_eq!(expire_event_after_update(Ok(None)).status(), 404);
    assert_eq!(expire_event_after_update(Err("x".to_string())).status(), 500);
    assert_eq!(delete_event_after_remove(Ok(Some(e))).message(), "DELETED");
    assert_eq!(delete_event_after_remove(Ok(None)).status(), 404);
    let key = "k".to_string();
    let text = "507f1f77bcf86cd799439011".to_string();
    assert_eq!(delete_target(&text, &"bad".to_string(), &key).unwrap_err().status(), 403);
    assert_eq!(delete_target(&"zz".to_string(), &key, &key).unwrap_err().status(), 400);
    assert_eq!(delete_target(&text, &key, &key).unwrap().bytes[0], 0x50);
    assert_eq!(id_of_request(&"zz".to_string()).unwrap_err().status(), 400);
    assert_eq!(id_of_request(&text).unwrap().bytes[11], 0x11);
}

#[test]
fn creation_now_with_no_lifetime_always_succeeds() {
    let e = new_event_now(request("t", "c", "w"), 0).expect("a zero lifetime always fits");
    assert_eq!(e.expire_at, e.created_at);
    assert!(e.created_at >= 0);
    let mut store = EventStore::new(Mode::On);
    assert!(store.add_event_now(request("t", "c", "w"), -5).is_some());
}
