//! The names under which values are cached.
//!
//! A key has the form `<entity>:<qualifier>[:<qualifier>...]`. Each kind
//! of query has one constructor, and each entity class has a pattern that
//! stands for all keys of the class. Different queries never share a key.

use super::decimal::{decimal, push_decimal};
use super::hex::{hex_lower, to_hex};
use sha2::{Digest, Sha256};
use vstd::prelude::*;
use vstd::string::*;
use vstd::utf8::encode_utf8;

verus! {

/// What a cached value answers: the kind of query and its qualifiers.
pub enum CacheQuery {
    CorridorMetrics { corridor_key: Seq<char> },
    CorridorList { limit: int, offset: int, filters_hash: Seq<char> },
    AnchorData { anchor_id: Seq<char> },
    AnchorList { limit: int, offset: int },
    DashboardStats,
    DashboardOverview,
    AnchorDetail { anchor_id: Seq<char> },
    AnchorAssets { anchor_id: Seq<char> },
    CorridorDetail { corridor_key: Seq<char> },
}

/// The entity classes. All keys of a class can be deleted at once.
pub enum EntityClass {
    Corridor,
    Anchor,
    Dashboard,
}

impl EntityClass {
    /// The pattern that stands for every key of the class.
    pub open spec fn pattern(self) -> Seq<char> {
        match self {
            EntityClass::Corridor => "corridor:*"@,
            EntityClass::Anchor => "anchor:*"@,
            EntityClass::Dashboard => "dashboard:*"@,
        }
    }
}

impl CacheQuery {
    /// The key of the query.
    pub open spec fn key(self) -> Seq<char> {
        match self {
            CacheQuery::CorridorMetrics { corridor_key } => "corridor:metrics:"@ + corridor_key,
            CacheQuery::CorridorList { limit, offset, filters_hash } => "corridor:list:"@ + decimal(
                limit,
            ) + ":"@ + decimal(offset) + ":"@ + filters_hash,
            CacheQuery::AnchorData { anchor_id } => "anchor:data:"@ + anchor_id,
            CacheQuery::AnchorList { limit, offset } => "anchor:list:"@ + decimal(limit) + ":"@
                + decimal(offset),
            CacheQuery::DashboardStats => "dashboard:stats"@,
            CacheQuery::DashboardOverview => "dashboard:overview"@,
            CacheQuery::AnchorDetail { anchor_id } => "anchor:detail:"@ + anchor_id,
            CacheQuery::AnchorAssets { anchor_id } => "anchor:assets:"@ + anchor_id,
            CacheQuery::CorridorDetail { corridor_key } => "corridor:detail:"@ + corridor_key,
        }
    }

    /// The entity class that the query belongs to.
    pub open spec fn class(self) -> EntityClass {
        match self {
            CacheQuery::CorridorMetrics { .. } => EntityClass::Corridor,
            CacheQuery::CorridorList { .. } => EntityClass::Corridor,
            CacheQuery::CorridorDetail { .. } => EntityClass::Corridor,
            CacheQuery::AnchorData { .. } => EntityClass::Anchor,
            CacheQuery::AnchorList { .. } => EntityClass::Anchor,
            CacheQuery::AnchorDetail { .. } => EntityClass::Anchor,
            CacheQuery::AnchorAssets { .. } => EntityClass::Anchor,
            CacheQuery::DashboardStats => EntityClass::Dashboard,
            CacheQuery::DashboardOverview => EntityClass::Dashboard,
        }
    }
}

/// The SHA-256 digest of a row of bytes.
pub uninterp spec fn sha256(data: Seq<u8>) -> Seq<u8>;

/// The fingerprint of a filter text: the SHA-256 digest of its UTF-8
/// bytes, in lower-case hexadecimal.
pub open spec fn filters_fingerprint(filters: Seq<char>) -> Seq<char> {
    hex_lower(sha256(encode_utf8(filters)))
}

/// Calls `Sha256::digest` of the `sha2` crate, which hashes `data` in one
/// go. Taken on trust: the result is the SHA-256 digest of `data`, and it
/// is 32 bytes long.
#[verifier::external_body]
fn sha256_digest(data: &[u8]) -> (digest: Vec<u8>)
    ensures
        digest@ == sha256(data@),
        digest@.len() == 32,
{
    Sha256::digest(data).to_vec()
}

/// Reduces a filter text of any length to a fingerprint of 64 characters,
/// for use as the last qualifier of a list key.
pub fn hash_filters(filters: &str) -> (fingerprint: String)
    ensures
        fingerprint@ == filters_fingerprint(filters@),
        fingerprint@.len() == 64,
{
    let digest = sha256_digest(filters.as_bytes());
    to_hex(digest.as_slice())
}

/// The constructors of keys and patterns.
pub struct CacheKey;

impl CacheKey {
    /// The key of the metrics of one corridor.
    pub fn corridor_metrics(corridor_key: &str) -> (key: String)
        ensures
            key@ == (CacheQuery::CorridorMetrics { corridor_key: corridor_key@ }).key(),
    {
        let mut key = String::from_str("corridor:metrics:");
        key.append(corridor_key);
        key
    }

    /// The key of one page of the corridor list under one set of filters.
    pub fn corridor_list(limit: i64, offset: i64, filters_hash: &str) -> (key: String)
        ensures
            key@ == (CacheQuery::CorridorList {
                limit: limit as int,
                offset: offset as int,
                filters_hash: filters_hash@,
            }).key(),
    {
        let mut key = String::from_str("corridor:list:");
        push_decimal(&mut key, limit);
        key.append(":");
        push_decimal(&mut key, offset);
        key.append(":");
        key.append(filters_hash);
        key
    }

    /// The key of the data of one anchor.
    pub fn anchor_data(anchor_id: &str) -> (key: String)
        ensures
            key@ == (CacheQuery::AnchorData { anchor_id: anchor_id@ }).key(),
    {
        let mut key = String::from_str("anchor:data:");
        key.append(anchor_id);
        key
    }

    /// The key of one page of the anchor list.
    pub fn anchor_list(limit: i64, offset: i64) -> (key: String)
        ensures
            key@ == (CacheQuery::AnchorList { limit: limit as int, offset: offset as int }).key(),
    {
        let mut key = String::from_str("anchor:list:");
        push_decimal(&mut key, limit);
        key.append(":");
        push_decimal(&mut key, offset);
        key
    }

    /// The key of the dashboard statistics.
    pub fn dashboard_stats() -> (key: String)
        ensures
            key@ == CacheQuery::DashboardStats.key(),
    {
        String::from_str("dashboard:stats")
    }

    /// The key of the dashboard overview.
    pub fn dashboard_overview() -> (key: String)
        ensures
            key@ == CacheQuery::DashboardOverview.key(),
    {
        String::from_str("dashboard:overview")
    }

    /// The key of the details of one anchor.
    pub fn anchor_detail(anchor_id: &str) -> (key: String)
        ensures
            key@ == (CacheQuery::AnchorDetail { anchor_id: anchor_id@ }).key(),
    {
        let mut key = String::from_str("anchor:detail:");
        key.append(anchor_id);
        key
    }

    /// The key of the assets of one anchor.
    pub fn anchor_assets(anchor_id: &str) -> (key: String)
        ensures
            key@ == (CacheQuery::AnchorAssets { anchor_id: anchor_id@ }).key(),
    {
        let mut key = String::from_str("anchor:assets:");
        key.append(anchor_id);
        key
    }

    /// The key of the details of one corridor.
    pub fn corridor_detail(corridor_key: &str) -> (key: String)
        ensures
            key@ == (CacheQuery::CorridorDetail { corridor_key: corridor_key@ }).key(),
    {
        let mut key = String::from_str("corridor:detail:");
        key.append(corridor_key);
        key
    }

    /// The pattern for every corridor key.
    pub fn corridor_pattern() -> (pattern: String)
        ensures
            pattern@ == EntityClass::Corridor.pattern(),
    {
        String::from_str("corridor:*")
    }

    /// The pattern for every anchor key.
    pub fn anchor_pattern() -> (pattern: String)
        ensures
            pattern@ == EntityClass::Anchor.pattern(),
    {
        String::from_str("anchor:*")
    }

    /// The pattern for every dashboard key.
    pub fn dashboard_pattern() -> (pattern: String)
        ensures
            pattern@ == EntityClass::Dashboard.pattern(),
    {
        String::from_str("dashboard:*")
    }
}

} // verus!
