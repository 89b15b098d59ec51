//! The fast literal matcher.
//!
//! Codecs that must test input against a literal tag — HTTP method
//! keywords, the "HTTP/" prefix — go through these fixed-length
//! equality primitives.  The three-way result distinguishes an exact
//! match, input that is still too short to judge, and a mismatch, as
//! the streaming-aware grammar above it requires.

use vstd::prelude::*;

verus! {

/// The three-way outcome of comparing input octets against a literal
/// tag.
#[derive(Debug, Clone, Copy, PartialEq, Eq, Structural)]
pub enum CompareResult {
    /// The input starts with the tag.
    Matched,
    /// The input ran out while still agreeing with the tag.
    Incomplete,
    /// The input contradicts the tag.
    Mismatch,
}

/// The three-way comparison of the octets of `s` at offset `from`
/// against `tag`: the first disagreeing octet decides `Mismatch`;
/// input exhausted while agreeing is `Incomplete`; otherwise the whole
/// tag is present and the result is `Matched`.
pub open spec fn spec_tag_compare(s: Seq<u8>, from: int, tag: Seq<u8>) -> CompareResult
    decreases tag.len(),
{
    if tag.len() == 0 {
        CompareResult::Matched
    } else if !(0 <= from < s.len()) {
        CompareResult::Incomplete
    } else if s[from] != tag[0] {
        CompareResult::Mismatch
    } else {
        spec_tag_compare(s, from + 1, tag.skip(1))
    }
}

/// A matched tag lies entirely within the input.
pub proof fn lemma_tag_compare_matched(s: Seq<u8>, from: int, tag: Seq<u8>)
    requires
        0 <= from,
        spec_tag_compare(s, from, tag) == CompareResult::Matched,
    ensures
        tag.len() > 0 ==> from + tag.len() <= s.len(),
    decreases tag.len(),
{
    if tag.len() > 1 {
        lemma_tag_compare_matched(s, from + 1, tag.skip(1));
    }
}

/// Compares the input octets at offset `from` against a literal tag.
pub fn tag_compare(input: &[u8], from: usize, tag: &[u8]) -> (r: CompareResult)
    requires
        from <= input@.len(),
    ensures
        r == spec_tag_compare(input@, from as int, tag@),
{
    let n = input.len();
    let t = tag.len();
    let mut k: usize = 0;
    proof {
        assert(tag@.skip(0) =~= tag@);
    }
    while k < t
        invariant
            k <= t,
            t == tag@.len(),
            n == input@.len(),
            from <= n,
            spec_tag_compare(input@, from as int, tag@) == spec_tag_compare(
                input@,
                from + k,
                tag@.skip(k as int),
            ),
        decreases t - k,
    {
        if k >= n - from {
            return CompareResult::Incomplete;
        }
        if input[from + k] != tag[k] {
            return CompareResult::Mismatch;
        }
        proof {
            assert(tag@.skip(k as int)[0] == tag@[k as int]);
            assert(tag@.skip(k as int).skip(1) =~= tag@.skip(k + 1));
        }
        k = k + 1;
    }
    CompareResult::Matched
}

/// Compares two octet slices for equality, as the literal matcher's
/// bulk primitive: true exactly when both hold the same octets in the
/// same order.
pub fn memcmp(a: &[u8], b: &[u8]) -> (r: bool)
    ensures
        r == (a@ == b@),
{
    let n = a.len();
    if n != b.len() {
        return false;
    }
    let mut k: usize = 0;
    while k < n
        invariant
            k <= n,
            n == a@.len(),
            n == b@.len(),
            forall|j: int| 0 <= j < k ==> a@[j] == b@[j],
        decreases n - k,
    {
        if a[k] != b[k] {
            return false;
        }
        k = k + 1;
    }
    proof {
        assert(a@ =~= b@);
    }
    true
}

} // verus!
