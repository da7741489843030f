//! A verified pre-screen for dictionary sources.
//!
//! The segmentation engine has two hard limits that a source text can
//! breach: its prefix table aborts once it holds 2^24 nodes, and after an
//! accepted load it recomputes the total frequency as a plain machine-word
//! sum over every entry. Both are bounded from the source text alone: the
//! table allocates at most one node per word character, and every word
//! character takes at least one source byte; every frequency the engine
//! parses is the value of one maximal ASCII digit run of the source, so the
//! sum of all such runs bounds the frequency total. The screen computes
//! both measures before any source reaches the engine, and a load is
//! admitted only while the running totals stay within the limits.

use vstd::prelude::*;
use vstd::utf8::encode_utf8;

verus! {

/// The engine's prefix table aborts when it would allocate node number
/// 2^24 (node 0 is the root). At most one node is allocated per word
/// character, and each character takes at least one source byte, so the
/// cumulative byte length of all sources ever fed to one engine — a
/// rejected source's lines included — must stay below this.
pub const DICT_BYTE_LIMIT: usize = 16777215;

/// An ASCII decimal digit.
pub open spec fn is_digit_byte(b: u8) -> bool {
    48 <= b <= 57
}

/// The sum of the values of the maximal ASCII digit runs of `s`, with the
/// runs before position `i` folded into `acc` and the run ending at `i`
/// carried as `run`.
pub open spec fn digit_weight_from(s: Seq<u8>, i: int, run: nat, acc: nat) -> nat
    decreases s.len() - i,
{
    if i < 0 || i >= s.len() {
        acc + run
    } else if is_digit_byte(s[i]) {
        digit_weight_from(s, i + 1, run * 10 + (s[i] - 48) as nat, acc)
    } else {
        digit_weight_from(s, i + 1, 0, acc + run)
    }
}

/// The sum of the values of the maximal ASCII digit runs of `s`. Every
/// frequency field the engine parses is exactly such a run (digits bounded
/// by whitespace, at most a leading plus sign), so this sum bounds the
/// frequency total an accepted source can contribute.
pub open spec fn source_weight(s: Seq<u8>) -> nat {
    digit_weight_from(s, 0, 0, 0)
}

/// The byte length of a source text.
pub open spec fn byte_len(d: Seq<char>) -> nat {
    encode_utf8(d).len()
}

/// The digit weight of a source text.
pub open spec fn weight_of(d: Seq<char>) -> nat {
    source_weight(encode_utf8(d))
}

/// The cumulative byte length of a history of sources.
pub open spec fn total_bytes(hist: Seq<Seq<char>>) -> nat
    decreases hist.len(),
{
    if hist.len() == 0 {
        0
    } else {
        total_bytes(hist.drop_last()) + byte_len(hist.last())
    }
}

/// The cumulative digit weight of a history of sources.
pub open spec fn total_weight(hist: Seq<Seq<char>>) -> nat
    decreases hist.len(),
{
    if hist.len() == 0 {
        0
    } else {
        total_weight(hist.drop_last()) + weight_of(hist.last())
    }
}

/// Whether loading `d` on top of the history `hist` keeps the engine
/// within its hard limits: the prefix-table cap, and the machine range the
/// frequency total is summed in.
pub open spec fn within_budget(hist: Seq<Seq<char>>, d: Seq<char>) -> bool {
    &&& total_bytes(hist) + byte_len(d) <= DICT_BYTE_LIMIT
    &&& total_weight(hist) + weight_of(d) <= usize::MAX
}

/// A digit weight never falls below what is already accumulated.
pub proof fn lemma_weight_lower(s: Seq<u8>, i: int, run: nat, acc: nat)
    ensures
        digit_weight_from(s, i, run, acc) >= acc + run,
    decreases s.len() - i,
{
    if i < 0 || i >= s.len() {
    } else if is_digit_byte(s[i]) {
        lemma_weight_lower(s, i + 1, run * 10 + (s[i] - 48) as nat, acc);
    } else {
        lemma_weight_lower(s, i + 1, 0, acc + run);
    }
}

/// A history's cumulative measures bound each of its prefixes' measures.
pub proof fn lemma_prefix_totals(hist: Seq<Seq<char>>, i: int)
    requires
        0 <= i <= hist.len(),
    ensures
        total_bytes(hist.subrange(0, i)) <= total_bytes(hist),
        total_weight(hist.subrange(0, i)) <= total_weight(hist),
    decreases hist.len() - i,
{
    if i == hist.len() {
        assert(hist.subrange(0, i) =~= hist);
    } else {
        lemma_prefix_totals(hist, i + 1);
        assert(hist.subrange(0, i + 1).drop_last() =~= hist.subrange(0, i));
        assert(hist.subrange(0, i + 1).last() == hist[i]);
    }
}

/// Compute a source's digit weight, unless it exceeds the machine range
/// that the engine's frequency total is summed in.
pub fn weigh_source(src: &str) -> (r: Option<u128>)
    ensures
        r matches Some(w) ==> w as nat == weight_of(src@) && w <= usize::MAX as u128,
        r is None ==> weight_of(src@) > usize::MAX,
{
    let b: &[u8] = src.as_bytes();
    let n: usize = b.len();
    let limit: u128 = usize::MAX as u128;
    let mut run: u128 = 0;
    let mut acc: u128 = 0;
    let mut i: usize = 0;
    proof {
        assert(b@ == encode_utf8(src@));
    }
    while i < n
        invariant
            n == b@.len(),
            b@ == encode_utf8(src@),
            i <= n,
            limit == usize::MAX as u128,
            acc + run <= limit,
            digit_weight_from(b@, i as int, run as nat, acc as nat) == source_weight(b@),
        decreases n - i,
    {
        let c = b[i];
        if c >= 48 && c <= 57 {
            run = run * 10 + (c - 48) as u128;
        } else {
            acc = acc + run;
            run = 0;
        }
        i = i + 1;
        if run > limit || acc > limit - run {
            proof {
                lemma_weight_lower(b@, i as int, run as nat, acc as nat);
            }
            return None;
        }
    }
    Some(acc + run)
}

} // verus!
