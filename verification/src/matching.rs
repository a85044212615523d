//! The rule by which a held permission satisfies a required one.

use vstd::prelude::*;
use vstd::string::*;
use crate::text::{
    bytes_equal, bytes_start_with, ends_with_pair, lemma_ascii_ending_by_bytes,
    lemma_encode_ascii_single, lemma_encode_injective, lemma_prefix_by_bytes, DOT, STAR,
};

verus! {

/// Whether a held permission is a prefix wildcard: it ends with `.*`.
pub open spec fn is_prefix_wildcard(held: Seq<char>) -> bool {
    ends_with_pair(held, '.', '*')
}

/// A prefix wildcard without its ending `.*`.
pub open spec fn wildcard_stem(held: Seq<char>) -> Seq<char>
    recommends
        is_prefix_wildcard(held),
{
    held.subrange(0, held.len() - 2)
}

/// Whether the permission `held` satisfies the permission `required`: `held`
/// is the global wildcard `*`, or it is `required` itself, or it is a prefix
/// wildcard whose stem `required` starts with.
pub open spec fn permission_matches(held: Seq<char>, required: Seq<char>) -> bool {
    ||| held == seq!['*']
    ||| held == required
    ||| (is_prefix_wildcard(held) && wildcard_stem(held).is_prefix_of(required))
}

/// Tests a held permission against a required one, wildcards on the held side
/// only. The three conditions are tried in the order of `permission_matches`,
/// and the first that holds ends the test.
pub fn check_permission_match(held_permission: &str, required_permission: &str) -> (matched: bool)
    ensures
        matched == permission_matches(held_permission@, required_permission@),
{
    let held = held_permission.as_bytes();
    let required = required_permission.as_bytes();
    proof {
        lemma_encode_ascii_single('*');
        if held@ == seq![STAR] {
            lemma_encode_injective(held_permission@, seq!['*']);
        }
        if held@ == required@ {
            lemma_encode_injective(held_permission@, required_permission@);
        }
        lemma_ascii_ending_by_bytes(held_permission@, '.', '*');
        if is_prefix_wildcard(held_permission@) {
            lemma_prefix_by_bytes(wildcard_stem(held_permission@), required_permission@);
        }
    }
    let length = held.len();
    if length == 1 && held[0] == STAR {
        assert(held@ =~= seq![STAR]);
        return true;
    }
    if bytes_equal(held, required) {
        return true;
    }
    if length >= 2 && held[length - 2] == DOT && held[length - 1] == STAR {
        bytes_start_with(required, &held[0..length - 2])
    } else {
        false
    }
}

} // verus!
