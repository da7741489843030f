//! The trusted boundary to the external segmentation engine (`jieba_rs`).
//!
//! The engine value is opaque to verification. Its abstract state is the
//! sequence of dictionary sources it has successfully absorbed since
//! construction, named by [`absorbed`]: the engine's behaviour is a
//! deterministic function of that history, because it is built from an empty
//! dictionary by the deterministic `load_dict` alone. What `cut` returns for
//! a given history, sentence and heuristic flag is named by [`tokens_of`],
//! and whether `load_dict` accepts a given source text is named by
//! [`dict_accepted`].

use vstd::prelude::*;
use crate::screen::DICT_BYTE_LIMIT;
use crate::screen::byte_len;
use crate::screen::total_bytes;
use crate::screen::total_weight;
use crate::screen::weight_of;

verus! {

#[verifier::external_type_specification]
#[verifier::external_body]
pub struct ExJieba(jieba_rs::Jieba);

/// The dictionary sources this engine has successfully absorbed, oldest
/// first, as character sequences.
pub uninterp spec fn absorbed(j: jieba_rs::Jieba) -> Seq<Seq<char>>;

/// Whether `load_dict` accepts a dictionary source. Acceptance depends on
/// the source text alone: the engine rejects a source exactly when some line
/// carries a second whitespace-separated field that does not parse as an
/// unsigned integer, independently of what was loaded before.
pub uninterp spec fn dict_accepted(d: Seq<char>) -> bool;

/// The token sequence `cut` produces for an engine with the given absorbed
/// history, a sentence, and the word-discovery heuristic flag.
pub uninterp spec fn tokens_of(hist: Seq<Seq<char>>, sentence: Seq<char>, hmm: bool) -> Seq<
    Seq<char>,
>;

/// The concatenation of a token sequence, without separators.
pub open spec fn joined(tokens: Seq<Seq<char>>) -> Seq<char> {
    tokens.flatten()
}

/// Relies on `jieba_rs::Jieba::empty`: an engine with no dictionary
/// absorbed.
#[verifier::external_body]
pub(crate) fn seg_empty() -> (j: jieba_rs::Jieba)
    ensures
        absorbed(j) == Seq::<Seq<char>>::empty(),
{
    jieba_rs::Jieba::empty()
}

/// Relies on `jieba_rs::Jieba::load_dict`: it parses the source line by
/// line and merges the entries into the live dictionary. It succeeds exactly
/// when every line's optional frequency field parses (reading from an
/// in-memory string never fails), and on success the engine has absorbed
/// exactly one more source. On failure the engine may be left mid-update,
/// so nothing is claimed of its state then.
///
/// The call can abort on two kinds of oversized input, which the callers
/// must screen out. Its prefix table allocates at most one node per word
/// character — at least one source byte each — and aborts at 2^24 nodes,
/// so the cumulative byte length of everything fed to this engine, the
/// just-rejected source included, must stay under that cap. And after an
/// accepted load it recomputes the total frequency as a plain machine-word
/// sum of every entry's frequency; each such frequency is the value of one
/// maximal ASCII digit run of some accepted source, so the cumulative
/// digit weight must fit the machine range.
#[verifier::external_body]
pub(crate) fn seg_load(j: &mut jieba_rs::Jieba, dict: &str) -> (r: Result<(), String>)
    requires
        total_bytes(absorbed(*old(j))) + byte_len(dict@) <= DICT_BYTE_LIMIT,
        total_weight(absorbed(*old(j))) + weight_of(dict@) <= usize::MAX,
    ensures
        r is Ok <==> dict_accepted(dict@),
        r is Ok ==> absorbed(*final(j)) == absorbed(*old(j)).push(dict@),
{
    match j.load_dict(&mut dict.as_bytes()) {
        Ok(()) => Ok(()),
        Err(e) => Err(format!("{:?}", e)),
    }
}

/// Relies on `jieba_rs::Jieba::cut`: it reads the dictionary without
/// changing it, and its tokens are consecutive pieces of the sentence, in
/// order and covering every character, so their concatenation restores the
/// sentence exactly.
#[verifier::external_body]
pub(crate) fn seg_cut(j: &jieba_rs::Jieba, sentence: &str, hmm: bool) -> (r: Vec<String>)
    ensures
        r@.map_values(|w: String| w@) == tokens_of(absorbed(*j), sentence@, hmm),
        joined(r@.map_values(|w: String| w@)) == sentence@,
{
    j.cut(sentence, hmm).into_iter().map(|t| t.word.to_string()).collect()
}

} // verus!
