//! What holds of keys and patterns, whatever the qualifiers.

use super::cache_keys::{filters_fingerprint, sha256, CacheQuery, EntityClass};
use super::decimal::{decimal, lemma_decimal_alphabet, lemma_decimal_injective};
use super::hex::lemma_hex_injective;
use super::pattern::pattern_matches;
use vstd::prelude::*;
use vstd::utf8::encode_utf8;

verus! {

/// What tells the kinds of key apart: the characters at five fixed places.
spec fn marks(key: Seq<char>) -> (char, char, char, char, char) {
    (key[0], key[7], key[8], key[9], key[10])
}

/// The marks that the keys of each kind of query bear.
spec fn marks_of(query: CacheQuery) -> (char, char, char, char, char) {
    match query {
        CacheQuery::CorridorMetrics { .. } => ('c', 'r', ':', 'm', 'e'),
        CacheQuery::CorridorList { .. } => ('c', 'r', ':', 'l', 'i'),
        CacheQuery::CorridorDetail { .. } => ('c', 'r', ':', 'd', 'e'),
        CacheQuery::AnchorData { .. } => ('a', 'd', 'a', 't', 'a'),
        CacheQuery::AnchorList { .. } => ('a', 'l', 'i', 's', 't'),
        CacheQuery::AnchorDetail { .. } => ('a', 'd', 'e', 't', 'a'),
        CacheQuery::AnchorAssets { .. } => ('a', 'a', 's', 's', 'e'),
        CacheQuery::DashboardStats => ('d', 'r', 'd', ':', 's'),
        CacheQuery::DashboardOverview => ('d', 'r', 'd', ':', 'o'),
    }
}

/// What follows the fixed beginning of a key.
spec fn qualifiers(query: CacheQuery) -> Seq<char> {
    match query {
        CacheQuery::CorridorMetrics { corridor_key } => corridor_key,
        CacheQuery::CorridorList { limit, offset, filters_hash } => decimal(limit) + seq![':']
            + (decimal(offset) + seq![':'] + filters_hash),
        CacheQuery::CorridorDetail { corridor_key } => corridor_key,
        CacheQuery::AnchorData { anchor_id } => anchor_id,
        CacheQuery::AnchorList { limit, offset } => decimal(limit) + seq![':'] + decimal(offset),
        CacheQuery::AnchorDetail { anchor_id } => anchor_id,
        CacheQuery::AnchorAssets { anchor_id } => anchor_id,
        CacheQuery::DashboardStats => Seq::empty(),
        CacheQuery::DashboardOverview => Seq::empty(),
    }
}

/// The length of the fixed beginning of a key.
spec fn fixed_len(query: CacheQuery) -> int {
    match query {
        CacheQuery::CorridorMetrics { .. } => 17,
        CacheQuery::CorridorList { .. } => 14,
        CacheQuery::CorridorDetail { .. } => 16,
        CacheQuery::AnchorData { .. } => 12,
        CacheQuery::AnchorList { .. } => 12,
        CacheQuery::AnchorDetail { .. } => 14,
        CacheQuery::AnchorAssets { .. } => 14,
        CacheQuery::DashboardStats => 15,
        CacheQuery::DashboardOverview => 18,
    }
}

/// A key bears the marks of its kind, and its qualifiers follow its fixed
/// beginning.
proof fn lemma_key_shape(query: CacheQuery)
    ensures
        query.key().len() >= 12,
        marks(query.key()) == marks_of(query),
        query.key().len() >= fixed_len(query),
        query.key().skip(fixed_len(query)) == qualifiers(query),
{
    reveal_strlit("corridor:metrics:");
    reveal_strlit("corridor:list:");
    reveal_strlit("corridor:detail:");
    reveal_strlit("anchor:data:");
    reveal_strlit("anchor:list:");
    reveal_strlit("anchor:detail:");
    reveal_strlit("anchor:assets:");
    reveal_strlit("dashboard:stats");
    reveal_strlit("dashboard:overview");
    reveal_strlit(":");
}

/// Two texts that are cut at their first `mark` are equal only if both
/// parts are.
proof fn lemma_cut_at_first(
    head: Seq<char>,
    tail: Seq<char>,
    other_head: Seq<char>,
    other_tail: Seq<char>,
    mark: char,
)
    requires
        !head.contains(mark),
        !other_head.contains(mark),
        head + seq![mark] + tail == other_head + seq![mark] + other_tail,
    ensures
        head == other_head,
        tail == other_tail,
{
    let whole = head + seq![mark] + tail;
    let other = other_head + seq![mark] + other_tail;
    if head.len() < other_head.len() {
        assert(other[head.len() as int] == other_head[head.len() as int]);
    }
    if other_head.len() < head.len() {
        assert(whole[other_head.len() as int] == head[other_head.len() as int]);
    }
    assert(other_head =~= other.take(head.len() as int));
    assert(other_tail =~= other.skip(head.len() as int + 1));
}

/// No two different queries have the same key.
pub proof fn lemma_keys_distinct(first: CacheQuery, second: CacheQuery)
    requires
        first.key() == second.key(),
    ensures
        first == second,
{
    lemma_key_shape(first);
    lemma_key_shape(second);
    match (first, second) {
        (
            CacheQuery::CorridorList { limit, offset, filters_hash },
            CacheQuery::CorridorList {
                limit: other_limit,
                offset: other_offset,
                filters_hash: other_hash,
            },
        ) => {
            lemma_decimal_alphabet(limit, ':');
            lemma_decimal_alphabet(other_limit, ':');
            lemma_decimal_alphabet(offset, ':');
            lemma_decimal_alphabet(other_offset, ':');
            lemma_cut_at_first(
                decimal(limit),
                decimal(offset) + seq![':'] + filters_hash,
                decimal(other_limit),
                decimal(other_offset) + seq![':'] + other_hash,
                ':',
            );
            lemma_cut_at_first(
                decimal(offset),
                filters_hash,
                decimal(other_offset),
                other_hash,
                ':',
            );
            lemma_decimal_injective(limit, other_limit);
            lemma_decimal_injective(offset, other_offset);
        },
        (
            CacheQuery::AnchorList { limit, offset },
            CacheQuery::AnchorList { limit: other_limit, offset: other_offset },
        ) => {
            lemma_decimal_alphabet(limit, ':');
            lemma_decimal_alphabet(other_limit, ':');
            lemma_cut_at_first(
                decimal(limit),
                decimal(offset),
                decimal(other_limit),
                decimal(other_offset),
                ':',
            );
            lemma_decimal_injective(limit, other_limit);
            lemma_decimal_injective(offset, other_offset);
        },
        _ => {},
    }
}

/// The pattern of a class stands for the keys of that class, and for the
/// keys of no other.
pub proof fn lemma_class_pattern(class: EntityClass, query: CacheQuery)
    ensures
        pattern_matches(class.pattern(), query.key()) <==> query.class() == class,
{
    lemma_key_shape(query);
    reveal_strlit("corridor:*");
    reveal_strlit("anchor:*");
    reveal_strlit("dashboard:*");
    reveal_strlit("corridor:metrics:");
    reveal_strlit("corridor:list:");
    reveal_strlit("corridor:detail:");
    reveal_strlit("anchor:data:");
    reveal_strlit("anchor:list:");
    reveal_strlit("anchor:detail:");
    reveal_strlit("anchor:assets:");
    reveal_strlit("dashboard:stats");
    reveal_strlit("dashboard:overview");
    let prefix = class.pattern().drop_last();
    let key = query.key();
    if query.class() != class && prefix.is_prefix_of(key) {
        assert(prefix[0] == key.subrange(0, prefix.len() as int)[0]);
    }
}

/// The key of a page of the corridor list under a filter text: the list
/// key whose last qualifier is the fingerprint of the text.
pub open spec fn filtered_list_key(limit: int, offset: int, filters: Seq<char>) -> Seq<char> {
    (CacheQuery::CorridorList { limit, offset, filters_hash: filters_fingerprint(filters) }).key()
}

/// The same filter text gives the same list key. Two different filter
/// texts give the same list key only where SHA-256 gives two different rows
/// of bytes the same digest.
pub proof fn lemma_list_keys_by_filters(
    limit: int,
    offset: int,
    filters: Seq<char>,
    other_filters: Seq<char>,
)
    ensures
        filters == other_filters ==> filtered_list_key(limit, offset, filters) == filtered_list_key(
            limit,
            offset,
            other_filters,
        ),
        filters != other_filters && filtered_list_key(limit, offset, filters) == filtered_list_key(
            limit,
            offset,
            other_filters,
        ) ==> encode_utf8(filters) != encode_utf8(other_filters) && sha256(encode_utf8(filters))
            == sha256(encode_utf8(other_filters)),
{
    let first = CacheQuery::CorridorList {
        limit,
        offset,
        filters_hash: filters_fingerprint(filters),
    };
    let second = CacheQuery::CorridorList {
        limit,
        offset,
        filters_hash: filters_fingerprint(other_filters),
    };
    if first.key() == second.key() {
        lemma_keys_distinct(first, second);
        lemma_hex_injective(sha256(encode_utf8(filters)), sha256(encode_utf8(other_filters)));
    }
    if encode_utf8(filters) == encode_utf8(other_filters) {
        vstd::utf8::encode_utf8_decode_utf8(filters);
        vstd::utf8::encode_utf8_decode_utf8(other_filters);
    }
}

} // verus!
