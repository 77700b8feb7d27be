//! Key patterns for bulk deletion.
//!
//! A pattern that ends in `*` stands for every key that begins with what
//! comes before the `*`. Any other pattern stands for the one key that is
//! equal to it. Nothing else in a pattern has a special meaning.

use vstd::prelude::*;
use vstd::std_specs::iter::IteratorSpec;

verus! {

/// The character that ends a prefix pattern.
pub const WILDCARD: char = '*';

/// Whether a pattern stands for a whole class of keys.
pub open spec fn is_prefix_pattern(pattern: Seq<char>) -> bool {
    pattern.len() > 0 && pattern.last() == WILDCARD
}

/// What every key of a prefix pattern begins with.
pub open spec fn pattern_prefix(pattern: Seq<char>) -> Seq<char>
    recommends
        is_prefix_pattern(pattern),
{
    pattern.drop_last()
}

/// Whether `pattern` stands for `key`.
pub open spec fn pattern_matches(pattern: Seq<char>, key: Seq<char>) -> bool {
    if is_prefix_pattern(pattern) {
        pattern_prefix(pattern).is_prefix_of(key)
    } else {
        key == pattern
    }
}

/// Decides whether `pattern` stands for `key`, in one pass over both.
pub fn matches_pattern(pattern: &str, key: &str) -> (matched: bool)
    ensures
        matched == pattern_matches(pattern@, key@),
{
    broadcast use vstd::string::group_string_axioms;

    let mut rest_of_pattern = pattern.chars();
    let mut rest_of_key = key.chars();
    let mut current = rest_of_pattern.next();
    let ghost mut n: int = 0;
    loop
        invariant
            0 <= n <= pattern@.len(),
            n <= key@.len(),
            current == (if n < pattern@.len() {
                Some(pattern@[n])
            } else {
                None::<char>
            }),
            rest_of_pattern.remaining() == (if n < pattern@.len() {
                pattern@.skip(n + 1)
            } else {
                pattern@.skip(n)
            }),
            rest_of_key.remaining() == key@.skip(n),
            key@.take(n) == pattern@.take(n),
            0 < n == pattern@.len() ==> pattern@.last() != WILDCARD,
        decreases pattern@.len() - n,
    {
        match current {
            None => {
                let key_ended = rest_of_key.next().is_none();
                proof {
                    assert(pattern@.take(n) == pattern@);
                    if key_ended {
                        assert(key@.take(n) == key@);
                    }
                }
                return key_ended;
            },
            Some(pattern_char) => {
                let following = rest_of_pattern.next();
                if following.is_none() && pattern_char == WILDCARD {
                    return true;
                }
                match rest_of_key.next() {
                    None => {
                        return false;
                    },
                    Some(key_char) => {
                        if key_char != pattern_char {
                            proof {
                                let prefix = pattern_prefix(pattern@);
                                if is_prefix_pattern(pattern@) && prefix.is_prefix_of(key@) {
                                    assert(prefix[n] == key@.subrange(0, prefix.len() as int)[n]);
                                }
                            }
                            return false;
                        }
                        proof {
                            n = n + 1;
                        }
                        current = following;
                    },
                }
            },
        }
    }
}

} // verus!
