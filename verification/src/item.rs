//! Catalog item records and the raw per-entry data the SDK reports.
//!
//! A `RawItem` is one present entry of a catalog response, already joined
//! with its per-index enrichment (preview URL and subscription statistic).
//! An `ItemRecord` is the value object the façade returns and caches: either
//! a fully populated record built from a raw entry, or a stub synthesized
//! from a bare identifier when the catalog has no match.

use crate::digits::{dec_chars, decimal_string};
use std::path::PathBuf;
use vstd::prelude::*;

verus! {

/// Name for the result of `str::to_lowercase`: the lowercased text is a
/// function of the input characters alone.
pub uninterp spec fn lower_of(s: Seq<char>) -> Seq<char>;

/// Relies on `str::to_lowercase`: its result depends only on the characters
/// of the input string.
#[verifier::external_body]
fn lowercase(s: &str) -> (r: String)
    ensures
        r@ == lower_of(s@),
{
    s.to_lowercase()
}

/// Relies on `PathBuf::clone`: the clone is the same path as the original.
pub assume_specification[ <PathBuf as Clone>::clone ](p: &PathBuf) -> (res: PathBuf)
    ensures
        res == p,
;

/// One present entry of a catalog response: the query result's own fields
/// plus the enrichment looked up at the entry's index.
pub struct RawItem {
    pub id: u64,
    pub title: String,
    pub time_created: u32,
    pub time_updated: u32,
    /// Bit pattern of the service's relevance score.
    pub score_bits: u32,
    pub tags: Vec<String>,
    pub preview_url: Option<String>,
    /// Subscription statistic, absent when the service reports none.
    pub subscriptions: Option<u64>,
}

pub ghost struct RawItemView {
    pub id: u64,
    pub title: Seq<char>,
    pub time_created: u32,
    pub time_updated: u32,
    pub score_bits: u32,
    pub tags: Seq<Seq<char>>,
    pub preview_url: Option<Seq<char>>,
    pub subscriptions: Option<u64>,
}

impl View for RawItem {
    type V = RawItemView;

    open spec fn view(&self) -> RawItemView {
        RawItemView {
            id: self.id,
            title: self.title@,
            time_created: self.time_created,
            time_updated: self.time_updated,
            score_bits: self.score_bits,
            tags: self.tags.deep_view(),
            preview_url: self.preview_url.deep_view(),
            subscriptions: self.subscriptions,
        }
    }
}

impl DeepView for RawItem {
    type V = RawItemView;

    open spec fn deep_view(&self) -> RawItemView {
        self.view()
    }
}

/// A catalog entry as returned to callers and kept in the cache.
#[derive(Debug)]
pub struct ItemRecord {
    pub id: u64,
    pub title: String,
    pub time_created: u32,
    pub time_updated: u32,
    /// Bit pattern of the service's relevance score.
    pub score_bits: u32,
    pub tags: Vec<String>,
    pub preview_url: Option<String>,
    pub subscriptions: u64,
    pub local_file: Option<PathBuf>,
    /// Lower-cased title, derived once at construction for case-insensitive
    /// lookup.
    pub search_title: String,
}

pub ghost struct ItemRecordView {
    pub id: u64,
    pub title: Seq<char>,
    pub time_created: u32,
    pub time_updated: u32,
    pub score_bits: u32,
    pub tags: Seq<Seq<char>>,
    pub preview_url: Option<Seq<char>>,
    pub subscriptions: u64,
    pub local_file: Option<PathBuf>,
    pub search_title: Seq<char>,
}

impl View for ItemRecord {
    type V = ItemRecordView;

    open spec fn view(&self) -> ItemRecordView {
        ItemRecordView {
            id: self.id,
            title: self.title@,
            time_created: self.time_created,
            time_updated: self.time_updated,
            score_bits: self.score_bits,
            tags: self.tags.deep_view(),
            preview_url: self.preview_url.deep_view(),
            subscriptions: self.subscriptions,
            local_file: self.local_file,
            search_title: self.search_title@,
        }
    }
}

impl DeepView for ItemRecord {
    type V = ItemRecordView;

    open spec fn deep_view(&self) -> ItemRecordView {
        self.view()
    }
}

/// The record built from a present response entry: fields carried over,
/// subscriptions treated as present-or-zero, no local file, and the
/// search title derived by lowercasing the title.
pub open spec fn enriched_view(r: RawItemView) -> ItemRecordView {
    ItemRecordView {
        id: r.id,
        title: r.title,
        time_created: r.time_created,
        time_updated: r.time_updated,
        score_bits: r.score_bits,
        tags: r.tags,
        preview_url: r.preview_url,
        subscriptions: match r.subscriptions {
            Some(s) => s,
            None => 0,
        },
        local_file: None,
        search_title: lower_of(r.title),
    }
}

/// The placeholder record for an identifier the catalog has no match for:
/// the decimal identifier as title, all numeric fields zero, no tags.
pub open spec fn stub_view(id: u64) -> ItemRecordView {
    ItemRecordView {
        id,
        title: dec_chars(id as nat),
        time_created: 0,
        time_updated: 0,
        score_bits: 0,
        tags: Seq::empty(),
        preview_url: None,
        subscriptions: 0,
        local_file: None,
        search_title: dec_chars(id as nat),
    }
}

impl ItemRecord {
    /// Builds the fully populated record for a present response entry.
    pub fn from_raw(raw: &RawItem) -> (r: ItemRecord)
        ensures
            r@ == enriched_view(raw@),
    {
        let search_title = lowercase(raw.title.as_str());
        let subscriptions: u64 = match raw.subscriptions {
            Some(s) => s,
            None => 0,
        };
        let mut tags: Vec<String> = Vec::new();
        let mut i: usize = 0;
        while i < raw.tags.len()
            invariant
                i <= raw.tags.len(),
                tags@.len() == i,
                forall|j: int| 0 <= j < i ==> tags@[j] == raw.tags@[j],
            decreases raw.tags.len() - i,
        {
            tags.push(raw.tags[i].clone());
            i += 1;
        }
        proof {
            assert(tags@ =~= raw.tags@);
        }
        let preview_url: Option<String> = match &raw.preview_url {
            Some(u) => Some(u.clone()),
            None => None,
        };
        let r = ItemRecord {
            id: raw.id,
            title: raw.title.clone(),
            time_created: raw.time_created,
            time_updated: raw.time_updated,
            score_bits: raw.score_bits,
            tags,
            preview_url,
            subscriptions,
            local_file: None,
            search_title,
        };
        proof {
            assert(r@ == enriched_view(raw@));
        }
        r
    }

    /// Builds the stub record for an identifier with no catalog match.
    pub fn stub(id: u64) -> (r: ItemRecord)
        ensures
            r@ == stub_view(id),
    {
        let title = decimal_string(id);
        let search_title = title.clone();
        let r = ItemRecord {
            id,
            title,
            time_created: 0,
            time_updated: 0,
            score_bits: 0,
            tags: Vec::new(),
            preview_url: None,
            subscriptions: 0,
            local_file: None,
            search_title,
        };
        proof {
            assert(r.tags.deep_view() =~= Seq::<Seq<char>>::empty());
        }
        r
    }

    /// Returns a record equal to this one; used to hand a caller its own
    /// copy of a cached entry.
    pub fn duplicate(&self) -> (r: ItemRecord)
        ensures
            r@ == self@,
    {
        let mut tags: Vec<String> = Vec::new();
        let mut i: usize = 0;
        while i < self.tags.len()
            invariant
                i <= self.tags.len(),
                tags@.len() == i,
                forall|j: int| 0 <= j < i ==> tags@[j] == self.tags@[j],
            decreases self.tags.len() - i,
        {
            tags.push(self.tags[i].clone());
            i += 1;
        }
        proof {
            assert(tags@ =~= self.tags@);
        }
        let preview_url: Option<String> = match &self.preview_url {
            Some(u) => Some(u.clone()),
            None => None,
        };
        let local_file: Option<PathBuf> = match &self.local_file {
            Some(p) => Some(p.clone()),
            None => None,
        };
        let r = ItemRecord {
            id: self.id,
            title: self.title.clone(),
            time_created: self.time_created,
            time_updated: self.time_updated,
            score_bits: self.score_bits,
            tags,
            preview_url,
            subscriptions: self.subscriptions,
            local_file,
            search_title: self.search_title.clone(),
        };
        r
    }
}

} // verus!
