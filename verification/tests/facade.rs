//! Scenario tests for the query façade: completion handling, cache
//! population, reconciliation order, browse exclusion and cancellation.

use workshop_bridge::item::{ItemRecord, RawItem};
use workshop_bridge::slot::{PendingSlot, WaitStep};
use workshop_bridge::workshop::{
    BatchResponse, PageResponse, QueryError, ServiceError, Workshop,
};

fn raw(id: u64, title: &str, tags: &[&str], subscriptions: Option<u64>) -> RawItem {
    RawItem {
        id,
        title: String::from(title),
        time_created: 100,
        time_updated: 200,
        score_bits: 0x3f000000,
        tags: tags.iter().map(|t| String::from(*t)).collect(),
        preview_url: Some(String::from("https://example.invalid/p.png")),
        subscriptions,
    }
}

fn cached_record(w: &Workshop, id: u64) -> Option<Option<ItemRecord>> {
    w.cache.cached(id)
}

#[test]
fn fetch_one_success_populates_cache() {
    let mut w = Workshop::new();
    let resp = BatchResponse { total: 1, entries: vec![Some(raw(42, "My Addon", &["fun"], Some(7)))] };
    let r = w.fetch_one_complete(42, Ok(resp));
    let rec = r.unwrap().unwrap();
    assert_eq!(rec.id, 42);
    assert_eq!(rec.title, "My Addon");
    assert_eq!(rec.search_title, "my addon");
    assert_eq!(rec.subscriptions, 7);
    assert_eq!(rec.tags, vec![String::from("fun")]);
    assert!(rec.local_file.is_none());
    match cached_record(&w, 42) {
        Some(Some(c)) => {
            assert_eq!(c.id, 42);
            assert_eq!(c.title, "My Addon");
        }
        other => panic!("expected cached record, got {:?}", other.is_some()),
    }
}

#[test]
fn fetch_one_failure_after_success_keeps_cache() {
    // A successful query's cache write is durable: a later failed query for
    // the same identifier returns the error and leaves the record on file.
    let mut w = Workshop::new();
    let resp = BatchResponse { total: 1, entries: vec![Some(raw(42, "Kept", &[], None))] };
    w.fetch_one_complete(42, Ok(resp)).unwrap();
    let r = w.fetch_one_complete(42, Err(ServiceError { code: 16 }));
    assert_eq!(r.unwrap_err(), QueryError::Catalog(ServiceError { code: 16 }));
    match cached_record(&w, 42) {
        Some(Some(c)) => assert_eq!(c.title, "Kept"),
        _ => panic!("cache lost the record after a failed query"),
    }
}

#[test]
fn fetch_one_zero_matches_caches_known_absent() {
    let mut w = Workshop::new();
    let resp = BatchResponse { total: 0, entries: vec![] };
    let r = w.fetch_one_complete(9000, Ok(resp));
    assert!(r.unwrap().is_none());
    // Known absent is distinguishable from never queried.
    assert!(matches!(cached_record(&w, 9000), Some(None)));
    assert!(cached_record(&w, 9001).is_none());
    assert!(w.cache.contains(9000));
    assert!(!w.cache.contains(9001));
}

#[test]
fn fetch_one_zero_matches_is_idempotent() {
    let mut w = Workshop::new();
    let r1 = w.fetch_one_complete(5, Ok(BatchResponse { total: 0, entries: vec![] }));
    let r2 = w.fetch_one_complete(5, Ok(BatchResponse { total: 0, entries: vec![] }));
    assert!(r1.unwrap().is_none());
    assert!(r2.unwrap().is_none());
    assert!(matches!(cached_record(&w, 5), Some(None)));
}

#[test]
fn fetch_many_reconciles_in_request_order() {
    // ids = [a, b, c] with b absent: the output is [record(a), stub(b),
    // record(c)] and the cache holds Some for a and c, None for b.
    let a: u64 = 11;
    let b: u64 = 22;
    let c: u64 = 33;
    let mut w = Workshop::new();
    let ids = vec![a, b, c];
    let resp = BatchResponse {
        total: 2,
        entries: vec![
            Some(raw(a, "Alpha", &[], Some(1))),
            None,
            Some(raw(c, "Gamma", &[], Some(3))),
        ],
    };
    let (total, items) = w.fetch_many_complete(&ids, Ok(resp)).unwrap();
    assert_eq!(total, 2);
    assert_eq!(items.len(), 3);
    assert_eq!(items[0].id, a);
    assert_eq!(items[0].title, "Alpha");
    assert_eq!(items[1].id, b);
    assert_eq!(items[1].title, "22");
    assert_eq!(items[1].search_title, "22");
    assert_eq!(items[1].subscriptions, 0);
    assert!(items[1].tags.is_empty());
    assert_eq!(items[2].id, c);
    assert_eq!(items[2].title, "Gamma");
    assert!(matches!(cached_record(&w, a), Some(Some(_))));
    assert!(matches!(cached_record(&w, b), Some(None)));
    assert!(matches!(cached_record(&w, c), Some(Some(_))));
}

#[test]
fn fetch_many_failure_leaves_cache_untouched() {
    let mut w = Workshop::new();
    let ids = vec![1, 2];
    let r = w.fetch_many_complete(&ids, Err(ServiceError { code: 2 }));
    assert_eq!(r.unwrap_err(), QueryError::Catalog(ServiceError { code: 2 }));
    assert!(!w.cache.contains(1));
    assert!(!w.cache.contains(2));
}

#[test]
fn empty_batch_is_rejected_before_any_network_interaction() {
    let ids: Vec<u64> = vec![];
    let r = Workshop::validate_batch_request(&ids);
    assert_eq!(r.unwrap_err(), QueryError::RequestConstruction);
    let r = Workshop::validate_batch_request(&vec![1]);
    assert!(r.is_ok());
}

#[test]
fn browse_excludes_the_excluded_tag() {
    let mut w = Workshop::new();
    let resp = PageResponse {
        total: 3,
        entries: vec![
            raw(1, "First", &["map"], Some(5)),
            raw(2, "Copy", &["map", "dupe"], Some(6)),
            raw(3, "Third", &[], None),
        ],
    };
    let (total, items) = w.browse_complete(Ok(resp)).unwrap();
    assert_eq!(total, 3);
    assert_eq!(items.len(), 2);
    assert_eq!(items[0].id, 1);
    assert_eq!(items[1].id, 3);
    for item in &items {
        assert!(!item.tags.iter().any(|t| t == "dupe"));
    }
    // Every returned entry was still enriched and cached.
    assert!(matches!(cached_record(&w, 2), Some(Some(_))));
}

#[test]
fn browse_failure_is_surfaced_verbatim() {
    let mut w = Workshop::new();
    let r = w.browse_complete(Err(ServiceError { code: 42 }));
    assert_eq!(r.unwrap_err(), QueryError::Catalog(ServiceError { code: 42 }));
}

#[test]
fn concurrent_waiters_have_independent_slots() {
    // Two in-flight queries, each with its own slot: completions land in
    // either order and each waiter takes exactly its own result.
    let mut slot_a: PendingSlot<u64> = PendingSlot::new();
    let mut slot_b: PendingSlot<u64> = PendingSlot::new();
    assert!(matches!(
        workshop_bridge::slot::poll_step(&mut slot_a, false),
        WaitStep::Pending
    ));
    slot_b.fill(200);
    assert!(matches!(
        workshop_bridge::slot::poll_step(&mut slot_a, false),
        WaitStep::Pending
    ));
    slot_a.fill(100);
    match workshop_bridge::slot::poll_step(&mut slot_a, false) {
        WaitStep::Ready(v) => assert_eq!(v, 100),
        _ => panic!("slot a should be ready"),
    }
    match workshop_bridge::slot::poll_step(&mut slot_b, false) {
        WaitStep::Ready(v) => assert_eq!(v, 200),
        _ => panic!("slot b should be ready"),
    }
}

#[test]
fn cancellation_wins_even_if_completion_already_landed() {
    let mut slot: PendingSlot<u64> = PendingSlot::new();
    slot.fill(7);
    // The caller cancelled: the wait is abandoned and the data is never
    // delivered, although the completion already landed.
    match workshop_bridge::slot::poll_step(&mut slot, true) {
        WaitStep::Cancelled => {}
        WaitStep::Ready(_) => panic!("a cancelled caller must never receive the data"),
        WaitStep::Pending => panic!("a cancelled caller must not keep waiting"),
    }
    // The slot still holds the value; it was not handed out.
    assert!(slot.is_filled());
}

#[test]
fn cancellation_before_completion_returns_cancelled() {
    let mut slot: PendingSlot<u64> = PendingSlot::new();
    assert!(matches!(
        workshop_bridge::slot::poll_step(&mut slot, true),
        WaitStep::Cancelled
    ));
    // A late-arriving completion is still safe to apply afterwards.
    slot.fill(7);
    assert!(slot.is_filled());
}
