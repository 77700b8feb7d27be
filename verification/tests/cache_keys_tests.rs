use hybrid_cache::cache::cache_keys::{hash_filters, CacheKey};
use hybrid_cache::cache::decimal::push_decimal;
use hybrid_cache::cache::hex::to_hex;

#[test]
fn corridor_metrics_key() {
    assert_eq!(CacheKey::corridor_metrics("USDC-EURC"), "corridor:metrics:USDC-EURC");
    assert_eq!(CacheKey::corridor_metrics(""), "corridor:metrics:");
}

#[test]
fn corridor_list_key() {
    assert_eq!(CacheKey::corridor_list(50, 0, "abc"), "corridor:list:50:0:abc");
    assert_eq!(CacheKey::corridor_list(10, 120, "default"), "corridor:list:10:120:default");
}

#[test]
fn corridor_list_key_with_negative_numbers() {
    assert_eq!(CacheKey::corridor_list(-1, -25, "h"), "corridor:list:-1:-25:h");
}

#[test]
fn list_keys_at_the_ends_of_i64() {
    assert_eq!(
        CacheKey::anchor_list(i64::MAX, i64::MIN),
        "anchor:list:9223372036854775807:-9223372036854775808"
    );
    assert_eq!(
        CacheKey::corridor_list(i64::MIN, i64::MAX, ""),
        "corridor:list:-9223372036854775808:9223372036854775807:"
    );
}

#[test]
fn anchor_keys() {
    assert_eq!(CacheKey::anchor_data("42"), "anchor:data:42");
    assert_eq!(CacheKey::anchor_list(50, 0), "anchor:list:50:0");
    assert_eq!(CacheKey::anchor_detail("1"), "anchor:detail:1");
    assert_eq!(CacheKey::anchor_assets("1"), "anchor:assets:1");
}

#[test]
fn corridor_detail_key() {
    assert_eq!(CacheKey::corridor_detail("USDC-EURC"), "corridor:detail:USDC-EURC");
}

#[test]
fn dashboard_keys() {
    assert_eq!(CacheKey::dashboard_stats(), "dashboard:stats");
    assert_eq!(CacheKey::dashboard_overview(), "dashboard:overview");
}

#[test]
fn class_patterns() {
    assert_eq!(CacheKey::corridor_pattern(), "corridor:*");
    assert_eq!(CacheKey::anchor_pattern(), "anchor:*");
    assert_eq!(CacheKey::dashboard_pattern(), "dashboard:*");
}

#[test]
fn keys_agree_with_formatting() {
    for limit in [-1000_i64, -10, -9, -1, 0, 1, 9, 10, 11, 99, 100, 101, 12345] {
        for offset in [0_i64, 7, 10, 500, -3] {
            assert_eq!(
                CacheKey::anchor_list(limit, offset),
                format!("anchor:list:{}:{}", limit, offset)
            );
            assert_eq!(
                CacheKey::corridor_list(limit, offset, "f"),
                format!("corridor:list:{}:{}:{}", limit, offset, "f")
            );
        }
    }
}

#[test]
fn decimal_is_appended() {
    let mut text = String::from("n=");
    push_decimal(&mut text, 1203);
    assert_eq!(text, "n=1203");
    push_decimal(&mut text, -7);
    assert_eq!(text, "n=1203-7");
    push_decimal(&mut text, 0);
    assert_eq!(text, "n=1203-70");
}

#[test]
fn hex_of_bytes() {
    assert_eq!(to_hex(&[]), "");
    assert_eq!(to_hex(&[10, 20, 30]), "0a141e");
    assert_eq!(to_hex(&[0x00, 0x0f, 0xf0, 0xff, 0x9a, 0xbc, 0xde]), "000ff0ff9abcde");
}

#[test]
fn fingerprint_of_the_empty_filter() {
    assert_eq!(
        hash_filters(""),
        "e3b0c44298fc1c149afbf4c8996fb92427ae41e4649b934ca495991b7852b855"
    );
}

#[test]
fn fingerprint_of_known_texts() {
    assert_eq!(
        hash_filters("abc"),
        "ba7816bf8f01cfea414140de5dae2223b00361a396177a9cb410ff61f20015ad"
    );
    assert_eq!(
        hash_filters("hello world"),
        "b94d27b9934d3e08a52e52d7da7dabfac484efe37a5380ee9088f7ace2efcde9"
    );
    assert_eq!(
        hash_filters("status=active&asset=USDC"),
        "88b17bdd25b01c2d5c9accbe9f33f82bace3b851917ce10e1700621129cedc44"
    );
}

#[test]
fn fingerprint_of_text_beyond_ascii() {
    assert_eq!(
        hash_filters("région=été"),
        "779f25a2868aa2784f314501c404551d9aed4e29394e9ce6db3ec9d4ee15a859"
    );
}

#[test]
fn fingerprint_has_a_fixed_length() {
    let long = "x".repeat(10_000);
    for filters in ["", "a", "status=active", long.as_str()] {
        let fingerprint = hash_filters(filters);
        assert_eq!(fingerprint.len(), 64);
        assert!(fingerprint.chars().all(|c| c.is_ascii_digit() || ('a'..='f').contains(&c)));
    }
}

#[test]
fn fingerprint_is_stable() {
    let first = CacheKey::corridor_list(50, 0, &hash_filters("status=active&asset=USDC"));
    let second = CacheKey::corridor_list(50, 0, &hash_filters("status=active&asset=USDC"));
    assert_eq!(first, second);
    assert_eq!(
        first,
        "corridor:list:50:0:88b17bdd25b01c2d5c9accbe9f33f82bace3b851917ce10e1700621129cedc44"
    );
}

#[test]
fn different_filters_give_different_keys() {
    let first = CacheKey::corridor_list(50, 0, &hash_filters("status=active&asset=USDC"));
    let second = CacheKey::corridor_list(50, 0, &hash_filters("status=active&asset=EURC"));
    assert_ne!(first, second);
    assert_eq!(
        second,
        "corridor:list:50:0:ccaafc5fca80a38d01771cea20ffd55fd5b75d4245388f35737ac2bbbfdabb69"
    );
}

#[test]
fn different_pages_give_different_keys() {
    let hash = hash_filters("");
    assert_ne!(CacheKey::corridor_list(50, 0, &hash), CacheKey::corridor_list(50, 50, &hash));
    assert_ne!(CacheKey::corridor_list(5, 0, &hash), CacheKey::corridor_list(50, 0, &hash));
    assert_ne!(CacheKey::anchor_list(1, 23), CacheKey::anchor_list(12, 3));
}
