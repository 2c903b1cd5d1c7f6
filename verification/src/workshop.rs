//! The query façade: request validation, completion handling, and the
//! reconciliation of sparse catalog responses against request order.
//!
//! Each synchronous query follows the same bridging protocol: validate and
//! build the request, register a completion callback that runs one of the
//! `*_complete` methods here and fills a `PendingSlot`, then drive the
//! callback pump until the slot is populated or the caller cancels. The
//! pump, the SDK session and the sleeping happen outside this crate; the
//! completion methods take the SDK's reported outcome as a plain value and
//! are verified for every value it could take.

use crate::cache::Cache;
use crate::item::{enriched_view, stub_view, ItemRecord, ItemRecordView, RawItem, RawItemView};
use vstd::prelude::*;
use vstd::string::StringExecFns;

verus! {

/// A failure the catalog service reported for an in-flight query,
/// surfaced to the caller untouched.
#[derive(Clone, Copy, Debug, PartialEq, Eq, Structural)]
pub struct ServiceError {
    pub code: u32,
}

/// The three ways a query can fail; absence of an item is data, not a
/// failure.
#[derive(Clone, Copy, Debug, PartialEq, Eq, Structural)]
pub enum QueryError {
    /// The request could not even be built; no wait loop was entered.
    RequestConstruction,
    /// The service reported the in-flight query as failed; the cache was
    /// left untouched.
    Catalog(ServiceError),
    /// The caller cancelled the operation before it resolved.
    Cancelled,
}

/// A batch response: the service's total match count and one entry per
/// requested identifier, `None` where the catalog has no match.
pub struct BatchResponse {
    pub total: u32,
    pub entries: Vec<Option<RawItem>>,
}

/// A browse-page response: every entry present.
pub struct PageResponse {
    pub total: u32,
    pub entries: Vec<RawItem>,
}

/// The tag whose items are excluded from browse results.
pub open spec fn excluded_tag() -> Seq<char> {
    "dupe"@
}

/// The excluded tag as an owned string, for executable comparisons.
pub fn excluded_tag_string() -> (s: String)
    ensures
        s@ == excluded_tag(),
{
    String::from_str("dupe")
}

/// The record owed at one batch position: the enriched present entry, or a
/// stub built from the requested identifier where the catalog has no match.
pub open spec fn reconciled_view(id: u64, entry: Option<RawItemView>) -> ItemRecordView {
    match entry {
        Some(raw) => enriched_view(raw),
        None => stub_view(id),
    }
}

/// The cache after a batch completion: walking the first `n` positions in
/// request order, a present entry files its record under the entry's own
/// identifier and an absent entry files the "known absent" marker under the
/// requested identifier. Later writes win.
pub open spec fn batch_update(
    cache: Map<u64, Option<ItemRecordView>>,
    ids: Seq<u64>,
    entries: Seq<Option<RawItemView>>,
    n: int,
) -> Map<u64, Option<ItemRecordView>>
    decreases n,
{
    if n <= 0 {
        cache
    } else {
        let prev = batch_update(cache, ids, entries, n - 1);
        match entries[n - 1] {
            Some(raw) => prev.insert(raw.id, Some(enriched_view(raw))),
            None => prev.insert(ids[n - 1], None),
        }
    }
}

/// The browse results assembled from the first `n` page entries, in page
/// order, leaving out every entry carrying the excluded tag.
pub open spec fn page_view(entries: Seq<RawItemView>, n: int) -> Seq<ItemRecordView>
    decreases n,
{
    if n <= 0 {
        Seq::empty()
    } else {
        let prev = page_view(entries, n - 1);
        if entries[n - 1].tags.contains(excluded_tag()) {
            prev
        } else {
            prev.push(enriched_view(entries[n - 1]))
        }
    }
}

/// The cache after a browse completion: every one of the first `n` page
/// entries is enriched and filed under its own identifier.
pub open spec fn page_update(
    cache: Map<u64, Option<ItemRecordView>>,
    entries: Seq<RawItemView>,
    n: int,
) -> Map<u64, Option<ItemRecordView>>
    decreases n,
{
    if n <= 0 {
        cache
    } else {
        page_update(cache, entries, n - 1).insert(
            entries[n - 1].id,
            Some(enriched_view(entries[n - 1])),
        )
    }
}

/// Whether one of `tags` reads exactly `needle`.
fn tags_contain(tags: &Vec<String>, needle: &String) -> (b: bool)
    ensures
        b == tags.deep_view().contains(needle@),
{
    let mut i: usize = 0;
    while i < tags.len()
        invariant
            i <= tags.len(),
            forall|j: int| 0 <= j < i ==> tags.deep_view()[j] != needle@,
        decreases tags.len() - i,
    {
        if tags[i].eq(needle) {
            proof {
                assert(tags.deep_view()[i as int] == needle@);
            }
            return true;
        }
        i += 1;
    }
    proof {
        assert(!tags.deep_view().contains(needle@)) by {
            if tags.deep_view().contains(needle@) {
                let j = choose|j: int|
                    0 <= j < tags.deep_view().len() && tags.deep_view()[j] == needle@;
                assert(tags.deep_view()[j] != needle@);
            }
        }
    }
    false
}

/// A well-formed single-item outcome: when the service reports at least one
/// match it also delivers a present first entry. The SDK guarantees this
/// shape; the original treats anything else as a programming error.
pub open spec fn one_outcome_wellformed(outcome: Result<BatchResponse, ServiceError>) -> bool {
    match outcome {
        Ok(resp) => resp.total != 0 ==> resp.entries@.len() > 0 && resp.entries@[0] is Some,
        Err(_) => true,
    }
}

/// The query façade's verified core: owns the item cache and turns SDK
/// outcomes, handed in as plain values, into reconciled results and cache
/// updates. The SDK session, the callback pump and the wait loop live with
/// the caller.
pub struct Workshop {
    pub cache: Cache,
}

impl Workshop {
    /// A fresh façade with an empty cache, created once per session.
    pub fn new() -> (w: Workshop)
        ensures
            w.cache@ == Map::<u64, Option<ItemRecordView>>::empty(),
    {
        Workshop { cache: Cache::new() }
    }

    /// Validates a batch request before anything is sent: an empty
    /// identifier set cannot be made into a catalog query and is rejected
    /// at once, with no network interaction.
    pub fn validate_batch_request(ids: &Vec<u64>) -> (r: Result<(), QueryError>)
        ensures
            r is Ok <==> ids@.len() > 0,
            r is Err ==> r == Err::<(), QueryError>(QueryError::RequestConstruction),
    {
        if ids.len() == 0 {
            Err(QueryError::RequestConstruction)
        } else {
            Ok(())
        }
    }

    /// Completion of a single-item query. A confirmed zero-match caches the
    /// "known absent" marker and yields `Ok(None)`; one match is enriched,
    /// cached under the returned entry's identifier and yielded; a service
    /// failure is surfaced verbatim and writes nothing.
    pub fn fetch_one_complete(
        &mut self,
        id: u64,
        outcome: Result<BatchResponse, ServiceError>,
    ) -> (r: Result<Option<ItemRecord>, QueryError>)
        requires
            one_outcome_wellformed(outcome),
        ensures
            outcome matches Err(e) ==> r == Err::<Option<ItemRecord>, QueryError>(
                QueryError::Catalog(e),
            ) && final(self).cache@ == old(self).cache@,
            outcome matches Ok(resp) ==> ({
                if resp.total == 0 {
                    &&& r matches Ok(opt)
                    &&& opt is None
                    &&& final(self).cache@ == old(self).cache@.insert(id, None)
                } else {
                    &&& r matches Ok(opt)
                    &&& opt matches Some(rec) && rec@ == enriched_view(resp.entries@[0]->Some_0@)
                        && final(self).cache@ == old(self).cache@.insert(rec.id, Some(rec@))
                }
            }),
    {
        match outcome {
            Err(e) => Err(QueryError::Catalog(e)),
            Ok(resp) => {
                if resp.total == 0 {
                    self.cache.insert_absent(id);
                    Ok(None)
                } else {
                    let first = match &resp.entries[0] {
                        Some(raw) => raw,
                        None => {
                            proof {
                                assert(false);
                            }
                            return Err(QueryError::RequestConstruction);
                        },
                    };
                    let rec = ItemRecord::from_raw(first);
                    self.cache.insert_present(rec.duplicate());
                    Ok(Some(rec))
                }
            },
        }
    }

    /// Completion of a batch query: reconciles the sparse response stream
    /// against the original request order. The output has one record per
    /// requested identifier, in request order: the next present entry where
    /// the catalog matched, a cached-as-absent stub where it did not.
    pub fn fetch_many_complete(
        &mut self,
        ids: &Vec<u64>,
        outcome: Result<BatchResponse, ServiceError>,
    ) -> (r: Result<(u32, Vec<ItemRecord>), QueryError>)
        requires
            outcome matches Ok(resp) ==> resp.entries@.len() == ids@.len(),
        ensures
            outcome matches Err(e) ==> r == Err::<(u32, Vec<ItemRecord>), QueryError>(
                QueryError::Catalog(e),
            ) && final(self).cache@ == old(self).cache@,
            outcome matches Ok(resp) ==> (r matches Ok(pair) && pair.0 == resp.total
                && pair.1.deep_view().len() == ids@.len() && (forall|i: int|
                0 <= i < ids@.len() ==> pair.1.deep_view()[i] == reconciled_view(
                    ids@[i],
                    resp.entries.deep_view()[i],
                )) && final(self).cache@ == batch_update(
                old(self).cache@,
                ids@,
                resp.entries.deep_view(),
                ids@.len() as int,
            )),
    {
        let resp = match outcome {
            Err(e) => {
                return Err(QueryError::Catalog(e));
            },
            Ok(resp) => resp,
        };
        let mut items: Vec<ItemRecord> = Vec::new();
        let mut i: usize = 0;
        while i < ids.len()
            invariant
                i <= ids.len(),
                resp.entries@.len() == ids@.len(),
                items@.len() == i,
                forall|j: int|
                    0 <= j < i ==> items.deep_view()[j] == reconciled_view(
                        ids@[j],
                        resp.entries.deep_view()[j],
                    ),
                self.cache@ == batch_update(
                    old(self).cache@,
                    ids@,
                    resp.entries.deep_view(),
                    i as int,
                ),
            decreases ids@.len() - i,
        {
            let ghost pre = items.deep_view();
            match &resp.entries[i] {
                Some(raw) => {
                    let rec = ItemRecord::from_raw(raw);
                    self.cache.insert_present(rec.duplicate());
                    items.push(rec);
                    proof {
                        assert(resp.entries.deep_view()[i as int] == Some(raw@));
                        assert(items.deep_view() =~= pre.push(rec@));
                    }
                },
                None => {
                    self.cache.insert_absent(ids[i]);
                    items.push(ItemRecord::stub(ids[i]));
                    proof {
                        assert(resp.entries.deep_view()[i as int] is None);
                        assert(items.deep_view() =~= pre.push(stub_view(ids@[i as int])));
                    }
                },
            }
            i += 1;
        }
        Ok((resp.total, items))
    }

    /// Completion of a browse-page query: every returned entry is enriched
    /// and cached under its own identifier, and the assembled results never
    /// include an item carrying the excluded tag.
    pub fn browse_complete(&mut self, outcome: Result<PageResponse, ServiceError>) -> (r: Result<
        (u32, Vec<ItemRecord>),
        QueryError,
    >)
        ensures
            outcome matches Err(e) ==> r == Err::<(u32, Vec<ItemRecord>), QueryError>(
                QueryError::Catalog(e),
            ) && final(self).cache@ == old(self).cache@,
            outcome matches Ok(resp) ==> (r matches Ok(pair) && pair.0 == resp.total
                && pair.1.deep_view() == page_view(
                resp.entries.deep_view(),
                resp.entries@.len() as int,
            ) && final(self).cache@ == page_update(
                old(self).cache@,
                resp.entries.deep_view(),
                resp.entries@.len() as int,
            ) && (forall|j: int|
                0 <= j < pair.1.deep_view().len() ==> !pair.1.deep_view()[j].tags.contains(
                    excluded_tag(),
                ))),
    {
        let resp = match outcome {
            Err(e) => {
                return Err(QueryError::Catalog(e));
            },
            Ok(resp) => resp,
        };
        let excluded = excluded_tag_string();
        let mut items: Vec<ItemRecord> = Vec::new();
        let mut i: usize = 0;
        while i < resp.entries.len()
            invariant
                i <= resp.entries@.len(),
                excluded@ == excluded_tag(),
                items.deep_view() == page_view(resp.entries.deep_view(), i as int),
                forall|j: int|
                    0 <= j < items.deep_view().len() ==> !items.deep_view()[j].tags.contains(
                        excluded_tag(),
                    ),
                self.cache@ == page_update(
                    old(self).cache@,
                    resp.entries.deep_view(),
                    i as int,
                ),
            decreases resp.entries@.len() - i,
        {
            let raw = &resp.entries[i];
            let keep = !tags_contain(&raw.tags, &excluded);
            let rec = ItemRecord::from_raw(raw);
            proof {
                assert(resp.entries.deep_view()[i as int] == raw@);
                assert(enriched_view(raw@).tags == raw@.tags);
            }
            if keep {
                let out = rec.duplicate();
                let ghost pre = items.deep_view();
                self.cache.insert_present(rec);
                items.push(out);
                proof {
                    assert(items.deep_view() =~= pre.push(enriched_view(raw@)));
                }
            } else {
                self.cache.insert_present(rec);
            }
            i += 1;
        }
        Ok((resp.total, items))
    }
}

/// A successful resolution is a durable cache effect: once a record was
/// filed, a later failed query — which writes nothing — still leaves the
/// record on file, so the cached value can be served without the service.
pub proof fn lemma_success_is_durable(
    cache: Map<u64, Option<ItemRecordView>>,
    rec: ItemRecordView,
)
    ensures
        cache.insert(rec.id, Some(rec)).contains_key(rec.id),
        cache.insert(rec.id, Some(rec))[rec.id] == Some(rec),
{
}

/// Caching a confirmed absence is idempotent, and the "known absent" marker
/// is on file afterwards — distinguishable from an identifier that was
/// never queried, whose key is not in the cache at all.
pub proof fn lemma_absent_recorded_and_idempotent(
    cache: Map<u64, Option<ItemRecordView>>,
    id: u64,
)
    ensures
        cache.insert(id, None).contains_key(id),
        cache.insert(id, None)[id] == None::<ItemRecordView>,
        cache.insert(id, None).insert(id, None) == cache.insert(id, None),
{
    assert(cache.insert(id, None).insert(id, None) =~= cache.insert(id, None));
}

/// After a batch completion over distinct identifiers whose present entries
/// carry the identifier they were requested under, the cache holds, for
/// every position, exactly what that position's entry dictated: the
/// enriched record where the catalog matched, the "known absent" marker
/// where it did not.
pub proof fn lemma_batch_cache_positions(
    cache: Map<u64, Option<ItemRecordView>>,
    ids: Seq<u64>,
    entries: Seq<Option<RawItemView>>,
    i: int,
)
    requires
        ids.len() == entries.len(),
        0 <= i < ids.len(),
        forall|j: int, k: int| 0 <= j < k < ids.len() ==> ids[j] != ids[k],
        forall|j: int|
            0 <= j < ids.len() ==> (#[trigger] entries[j] matches Some(raw) ==> raw.id == ids[j]),
    ensures
        batch_update(cache, ids, entries, ids.len() as int).contains_key(ids[i]),
        batch_update(cache, ids, entries, ids.len() as int)[ids[i]] == (match entries[i] {
            Some(raw) => Some(enriched_view(raw)),
            None => None,
        }),
{
    lemma_batch_cache_positions_upto(cache, ids, entries, i, ids.len() as int);
}

proof fn lemma_batch_cache_positions_upto(
    cache: Map<u64, Option<ItemRecordView>>,
    ids: Seq<u64>,
    entries: Seq<Option<RawItemView>>,
    i: int,
    n: int,
)
    requires
        ids.len() == entries.len(),
        0 <= i < n <= ids.len(),
        forall|j: int, k: int| 0 <= j < k < ids.len() ==> ids[j] != ids[k],
        forall|j: int|
            0 <= j < ids.len() ==> (#[trigger] entries[j] matches Some(raw) ==> raw.id == ids[j]),
    ensures
        batch_update(cache, ids, entries, n).contains_key(ids[i]),
        batch_update(cache, ids, entries, n)[ids[i]] == (match entries[i] {
            Some(raw) => Some(enriched_view(raw)),
            None => None,
        }),
    decreases n,
{
    if n == i + 1 {
        assert(entries[i] matches Some(raw) ==> raw.id == ids[i]);
    } else {
        lemma_batch_cache_positions_upto(cache, ids, entries, i, n - 1);
        assert(entries[n - 1] matches Some(raw) ==> raw.id == ids[n - 1]);
        assert(ids[n - 1] != ids[i]);
    }
}

} // verus!
