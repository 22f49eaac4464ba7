//! Reranking of task-dedup candidates: the choice between the provider's
//! cross-encoder and the vector-similarity fallback, and the fallback's
//! ordering of candidates by their stored similarity score.
use vstd::prelude::*;

use crate::text::{
    ascii_lower, ascii_upper, chars_of, contains, has_prefix, has_substring, is_blank,
    lemma_lower_trim_upper, lemma_trim_blank, lemma_trim_ignores_surrounding_space, lower_ascii,
    starts_with, trim, trimmed,
};

verus! {

// ---------------------------------------------------------------------------
// Provider selection
// ---------------------------------------------------------------------------

/// Marks of a key that only stands in for a real one.
pub open spec fn placeholder_marks() -> Seq<Seq<char>> {
    seq!["placeholder"@, "changeme"@, "replace-me"@, "example"@]
}

/// `key` is a provider-owned key: once trimmed and lower-cased it is not
/// empty, is not a `local-` key, and carries no placeholder mark.
pub open spec fn key_configured(key: Seq<char>) -> bool {
    let normalised = ascii_lower(trim(key));
    &&& normalised.len() > 0
    &&& !has_prefix(normalised, "local-"@)
    &&& forall|i: int| 0 <= i < placeholder_marks().len() ==> !has_substring(normalised, #[trigger] placeholder_marks()[i])
}

/// Whether `api_key` is a provider-owned key.
pub fn is_configured_key(api_key: &str) -> (r: bool)
    ensures
        r == key_configured(api_key@),
{
    let normalised = lower_ascii(&trimmed(&chars_of(api_key)));
    if normalised.len() == 0 {
        return false;
    }
    if starts_with(&normalised, &chars_of("local-")) {
        return false;
    }
    let marks: Vec<&str> = vec!["placeholder", "changeme", "replace-me", "example"];
    let ghost spec_marks = placeholder_marks();
    proof {
        reveal_strlit("placeholder");
        reveal_strlit("changeme");
        reveal_strlit("replace-me");
        reveal_strlit("example");
        assert(marks@.len() == 4);
        assert(forall|i: int| 0 <= i < 4 ==> #[trigger] marks@[i]@ == spec_marks[i]);
    }
    let mut i: usize = 0;
    while i < marks.len()
        invariant
            i <= marks.len() == 4,
            spec_marks == placeholder_marks(),
            normalised@ == ascii_lower(trim(api_key@)),
            forall|k: int| 0 <= k < 4 ==> #[trigger] marks@[k]@ == spec_marks[k],
            forall|k: int| 0 <= k < i ==> !has_substring(normalised@, #[trigger] spec_marks[k]),
        decreases marks.len() - i,
    {
        if contains(&normalised, &chars_of(marks[i])) {
            assert(has_substring(normalised@, spec_marks[i as int]));
            return false;
        }
        i = i + 1;
    }
    true
}

/// An unset or blank key never selects the cross-encoder.
pub proof fn lemma_blank_key_is_not_configured(key: Seq<char>)
    requires
        is_blank(key),
    ensures
        !key_configured(key),
{
    lemma_trim_blank(key);
}

/// Whether a key is provider-owned does not depend on ASCII case or on the
/// white space around it.
pub proof fn lemma_key_configured_ignores_case_and_spaces(
    key: Seq<char>,
    before: Seq<char>,
    after: Seq<char>,
)
    requires
        is_blank(before),
        is_blank(after),
    ensures
        key_configured(before + ascii_upper(key) + after) == key_configured(key),
{
    lemma_trim_ignores_surrounding_space(before, ascii_upper(key), after);
    lemma_lower_trim_upper(key);
}

/// Reranks by the provider's cross-encoder, with the provider-owned key.
#[derive(Clone, Debug)]
pub struct CohereReranker {
    api_key: String,
}

impl CohereReranker {
    pub closed spec fn spec_api_key(self) -> Seq<char> {
        self.api_key@
    }

    /// The reranker authenticated by `api_key`.
    pub fn new(api_key: String) -> (r: CohereReranker)
        ensures
            r.spec_api_key() == api_key@,
    {
        CohereReranker { api_key }
    }

    /// The key requests are authenticated with.
    pub fn api_key(&self) -> (r: &str)
        ensures
            r@ == self.spec_api_key(),
    {
        self.api_key.as_str()
    }
}

/// Reranks candidates by the vector similarity the store already calculated:
/// the local fallback when no provider-owned key is configured.
#[derive(Clone, Copy, Debug, Default)]
pub struct CosineReranker;

/// The task-dedup reranker selected from the provider configuration.
#[derive(Clone, Debug)]
pub enum TaskDedupReranker {
    Cohere(CohereReranker),
    Cosine(CosineReranker),
}

impl TaskDedupReranker {
    /// The cross-encoder when `api_key` is provider-owned, otherwise the
    /// vector-similarity fallback.
    pub fn from_cohere_api_key(api_key: String) -> (r: TaskDedupReranker)
        ensures
            key_configured(api_key@) <==> r is Cohere,
            r matches TaskDedupReranker::Cohere(c) ==> c.spec_api_key() == api_key@,
    {
        if is_configured_key(api_key.as_str()) {
            TaskDedupReranker::Cohere(CohereReranker::new(api_key))
        } else {
            TaskDedupReranker::Cosine(CosineReranker)
        }
    }
}

// ---------------------------------------------------------------------------
// Similarity ordering
// ---------------------------------------------------------------------------

/// The integer under which a 32-bit float with bit pattern `bits` sorts in
/// IEEE 754 total order (the key `f32::total_cmp` compares).
pub open spec fn score_key(bits: u32) -> i32 {
    let left = bits as i32;
    left ^ ((((left >> 31i32) as u32) >> 1u32) as i32)
}

/// IEEE 754 total order on the bit patterns of two 32-bit floats, from
/// sign and magnitude: every float with the sign bit set lies below every
/// float without it; without it, a larger magnitude is larger; with it, a
/// larger magnitude is smaller.
pub open spec fn float_total_lt(a: u32, b: u32) -> bool {
    let sa = a >> 31u32;
    let sb = b >> 31u32;
    let ma = a & 0x7fff_ffffu32;
    let mb = b & 0x7fff_ffffu32;
    if sa != sb {
        sa == 1
    } else if sa == 0 {
        ma < mb
    } else {
        mb < ma
    }
}

/// The key orders scores exactly as IEEE 754 total order does, and tells
/// any two different bit patterns apart.
pub proof fn lemma_score_key_orders_like_total_order(a: u32, b: u32)
    ensures
        (score_key(a) < score_key(b)) == float_total_lt(a, b),
        (score_key(a) == score_key(b)) == (a == b),
{
    assert((((a as i32) ^ (((((a as i32) >> 31i32) as u32) >> 1u32) as i32)) < ((b as i32) ^ (
        ((((b as i32) >> 31i32) as u32) >> 1u32) as i32))) == ({
        let sa = a >> 31u32;
        let sb = b >> 31u32;
        let ma = a & 0x7fff_ffffu32;
        let mb = b & 0x7fff_ffffu32;
        if sa != sb {
            sa == 1
        } else if sa == 0 {
            ma < mb
        } else {
            mb < ma
        }
    })) by (bit_vector);
    assert((((a as i32) ^ (((((a as i32) >> 31i32) as u32) >> 1u32) as i32)) == ((b as i32) ^ (
        ((((b as i32) >> 31i32) as u32) >> 1u32) as i32))) == (a == b)) by (bit_vector);
}

/// The key of a candidate: that of its first match's score, or that of a
/// zero score (bit pattern zero) when it has no match.
pub open spec fn candidate_key(first_match_bits: Option<u32>) -> i32 {
    match first_match_bits {
        Some(bits) => score_key(bits),
        None => score_key(0),
    }
}

/// The score a candidate is ranked by: its first match's, or zero (bit
/// pattern zero) when it has no match.
pub open spec fn candidate_bits(first_match_bits: Option<u32>) -> u32 {
    match first_match_bits {
        Some(bits) => bits,
        None => 0,
    }
}

/// Of any two candidates in `order`, the earlier one has the greater score
/// in IEEE 754 total order, or the same score and the earlier place in the
/// input.
pub open spec fn ranked_by_score(first_match_bits: Seq<Option<u32>>, order: Seq<usize>) -> bool {
    forall|i: int, j: int|
        #![trigger order[i], order[j]]
        0 <= i < j < order.len() ==> {
            let x = candidate_bits(first_match_bits[order[i] as int]);
            let y = candidate_bits(first_match_bits[order[j] as int]);
            ||| float_total_lt(y, x)
            ||| (x == y && order[i] < order[j])
        }
}

/// An order ranked by key is ranked by score.
pub proof fn lemma_ranked_by_score(first_match_bits: Seq<Option<u32>>, order: Seq<usize>)
    requires
        forall|i: int| 0 <= i < order.len() ==> #[trigger] order[i] < first_match_bits.len(),
        ranked(first_match_bits.map_values(|b: Option<u32>| candidate_key(b)), order),
    ensures
        ranked_by_score(first_match_bits, order),
{
    let keys = first_match_bits.map_values(|b: Option<u32>| candidate_key(b));
    assert forall|i: int, j: int|
        #![trigger order[i], order[j]]
        0 <= i < j < order.len() implies {
        let x = candidate_bits(first_match_bits[order[i] as int]);
        let y = candidate_bits(first_match_bits[order[j] as int]);
        ||| float_total_lt(y, x)
        ||| (x == y && order[i] < order[j])
    } by {
        let x = candidate_bits(first_match_bits[order[i] as int]);
        let y = candidate_bits(first_match_bits[order[j] as int]);
        assert(order[i] < first_match_bits.len() && order[j] < first_match_bits.len());
        assert(keys[order[i] as int] == score_key(x));
        assert(keys[order[j] as int] == score_key(y));
        lemma_score_key_orders_like_total_order(y, x);
    }
}

/// `order` lists candidates from the highest key to the lowest, and
/// candidates with equal keys in their given order.
pub open spec fn ranked(keys: Seq<i32>, order: Seq<usize>) -> bool {
    forall|i: int, j: int|
        0 <= i < j < order.len() ==> {
            ||| keys[order[i] as int] > keys[order[j] as int]
            ||| (keys[order[i] as int] == keys[order[j] as int] && order[i] < order[j])
        }
}

fn key_of_bits(bits: u32) -> (r: i32)
    ensures
        r == score_key(bits),
{
    let left = bits as i32;
    left ^ ((((left >> 31i32) as u32) >> 1u32) as i32)
}

proof fn lemma_insert_contains(s: Seq<usize>, pos: int, x: usize, m: usize)
    requires
        0 <= pos <= s.len(),
        s.contains(m) || m == x,
    ensures
        s.insert(pos, x).contains(m),
{
    let t = s.insert(pos, x);
    if m == x {
        assert(t[pos] == x);
    } else {
        let i = choose|i: int| 0 <= i < s.len() && s[i] == m;
        if i < pos {
            assert(t[i] == m);
        } else {
            assert(t[i + 1] == m);
        }
    }
}

impl CosineReranker {
    /// The order in which candidates are returned, given the bit pattern of
    /// each candidate's first match score (`None` for a candidate without
    /// matches): every candidate exactly once, highest score first, ties in
    /// their given order.
    pub fn rank_order(&self, first_match_bits: &Vec<Option<u32>>) -> (r: Vec<usize>)
        ensures
            lists_each_once(r@, first_match_bits@.len()),
            ranked(first_match_bits@.map_values(|b: Option<u32>| candidate_key(b)), r@),
            ranked_by_score(first_match_bits@, r@),
    {
        let n = first_match_bits.len();
        let mut keys: Vec<i32> = Vec::new();
        let mut i: usize = 0;
        while i < n
            invariant
                i <= n == first_match_bits@.len(),
                keys@ =~= first_match_bits@.take(i as int).map_values(
                    |b: Option<u32>| candidate_key(b),
                ),
            decreases n - i,
        {
            let bits = match first_match_bits[i] {
                Some(b) => b,
                None => 0,
            };
            keys.push(key_of_bits(bits));
            i = i + 1;
        }
        let ghost ks = first_match_bits@.map_values(|b: Option<u32>| candidate_key(b));
        assert(first_match_bits@.take(n as int) =~= first_match_bits@);
        assert(keys@ == ks);
        let mut order: Vec<usize> = Vec::new();
        let mut k: usize = 0;
        while k < n
            invariant
                k <= n == keys@.len(),
                keys@ == ks,
                order@.len() == k,
                forall|a: int| 0 <= a < order@.len() ==> #[trigger] order@[a] < k,
                forall|m: usize| m < k ==> #[trigger] order@.contains(m),
                ranked(ks, order@),
            decreases n - k,
        {
            let mut pos: usize = 0;
            while pos < order.len() && keys[order[pos]] >= keys[k]
                invariant
                    pos <= order@.len(),
                    k < n == keys@.len(),
                    forall|a: int| 0 <= a < order@.len() ==> #[trigger] order@[a] < k,
                    forall|a: int| 0 <= a < pos ==> keys@[#[trigger] order@[a] as int] >= keys@[k as int],
                decreases order@.len() - pos,
            {
                pos = pos + 1;
            }
            let ghost before = order@;
            order.insert(pos, k);
            proof {
                let after = order@;
                assert(after == before.insert(pos as int, k));
                assert forall|a: int, b: int| 0 <= a < b < after.len() implies {
                    ||| ks[after[a] as int] > ks[after[b] as int]
                    ||| (ks[after[a] as int] == ks[after[b] as int] && after[a] < after[b])
                } by {
                    if b < pos {
                        assert(after[a] == before[a] && after[b] == before[b]);
                    } else if b == pos {
                        assert(after[a] == before[a]);
                    } else if a == pos {
                        assert(after[b] == before[b - 1]);
                        assert(ks[before[pos as int] as int] < ks[k as int]);
                        if b - 1 > pos {
                            assert(ks[before[pos as int] as int] >= ks[before[b - 1] as int]);
                        }
                    } else if a < pos {
                        assert(after[a] == before[a] && after[b] == before[b - 1]);
                    } else {
                        assert(after[a] == before[a - 1] && after[b] == before[b - 1]);
                    }
                }
                assert forall|m: usize| m < k + 1 implies #[trigger] after.contains(m) by {
                    lemma_insert_contains(before, pos as int, k, m);
                }
                assert forall|a: int| 0 <= a < after.len() implies #[trigger] after[a] < k + 1 by {
                    if a < pos {
                        assert(after[a] == before[a]);
                    } else if a > pos {
                        assert(after[a] == before[a - 1]);
                    }
                }
            }
            k = k + 1;
        }
        proof {
            lemma_ranked_by_score(first_match_bits@, order@);
        }
        order
    }
}

/// `order` lists each of the `n` candidates exactly once.
pub open spec fn lists_each_once(order: Seq<usize>, n: nat) -> bool {
    &&& order.len() == n
    &&& forall|i: int| 0 <= i < order.len() ==> #[trigger] order[i] < n
    &&& forall|k: usize| k < n ==> #[trigger] order.contains(k)
}

proof fn lemma_ranked_agree_up_to(keys: Seq<i32>, a: Seq<usize>, b: Seq<usize>, i: int)
    requires
        lists_each_once(a, keys.len()),
        lists_each_once(b, keys.len()),
        ranked(keys, a),
        ranked(keys, b),
        0 <= i < keys.len(),
    ensures
        forall|j: int| 0 <= j <= i ==> a[j] == b[j],
    decreases i,
{
    if i > 0 {
        lemma_ranked_agree_up_to(keys, a, b, i - 1);
    }
    let x = a[i];
    let y = b[i];
    if x != y {
        assert(a.contains(y));
        let p = choose|p: int| 0 <= p < a.len() && a[p] == y;
        assert(b.contains(x));
        let q = choose|q: int| 0 <= q < b.len() && b[q] == x;
        if p < i {
            assert(b[p] == y);
            assert(false);
        }
        if q < i {
            assert(a[q] == x);
            assert(false);
        }
        assert(p > i && q > i);
        assert(keys[x as int] > keys[y as int] || (keys[x as int] == keys[y as int] && x < y));
        assert(keys[y as int] > keys[x as int] || (keys[y as int] == keys[x as int] && y < x));
        assert(false);
    }
}

/// The similarity order is determined by the scores alone: any two orders
/// that list each candidate once, highest key first and ties in given
/// order, are the same order.
pub proof fn lemma_rank_order_unique(keys: Seq<i32>, a: Seq<usize>, b: Seq<usize>)
    requires
        lists_each_once(a, keys.len()),
        lists_each_once(b, keys.len()),
        ranked(keys, a),
        ranked(keys, b),
    ensures
        a == b,
{
    if keys.len() > 0 {
        lemma_ranked_agree_up_to(keys, a, b, keys.len() - 1);
    }
    assert(a =~= b);
}

} // verus!
