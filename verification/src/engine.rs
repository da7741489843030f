//! The shared engine handle: mutually-exclusive access to one segmentation
//! engine, with lock poisoning.
//!
//! Every operation runs its engine work inside one exclusive span: it first
//! checks the poison mark, then works on the engine, and settles before any
//! other operation can start. If an operation fails catastrophically while
//! holding access, the handle is poisoned for good and every later operation
//! fails immediately with [`FailureKind::LockPoisoned`].
//!
//! A dictionary load is atomic: either the whole source is absorbed, or the
//! visible dictionary state is unchanged. The external engine may be left
//! mid-update by a rejected source, so on rejection the engine is rebuilt
//! by replaying the recorded history of accepted sources from scratch. The
//! handle keeps its own copy of each accepted source solely for that
//! rollback; the engine never re-reads a source once a load has settled.
//!
//! Every source is screened before it reaches the engine (see
//! [`crate::screen`]): one whose size or digit weight would push the engine
//! past its prefix-table cap or overflow its frequency total is rejected
//! here, with the dictionary untouched.

use vstd::prelude::*;
use vstd::utf8::encode_utf8;
use crate::bridge::Failure;
use crate::bridge::FailureKind;
use crate::screen::DICT_BYTE_LIMIT;
use crate::screen::byte_len;
use crate::screen::lemma_prefix_totals;
use crate::screen::total_bytes;
use crate::screen::total_weight;
use crate::screen::weigh_source;
use crate::screen::within_budget;
use crate::seg::absorbed;
use crate::seg::dict_accepted;
use crate::seg::joined;
use crate::seg::seg_cut;
use crate::seg::seg_empty;
use crate::seg::seg_load;
use crate::seg::tokens_of;

verus! {

/// One segmentation engine behind a poisonable exclusive-access guard,
/// together with the history of dictionary sources it has absorbed and the
/// running measures the pre-screen budgets against.
pub struct Engine {
    seg: jieba_rs::Jieba,
    sources: Vec<String>,
    loaded_bytes: usize,
    loaded_weight: u128,
    poisoned: bool,
}

impl Engine {
    /// The dictionary sources absorbed so far, oldest first. The engine's
    /// observable behaviour is a function of this history alone.
    pub closed spec fn dict_history(self) -> Seq<Seq<char>> {
        self.sources@.map_values(|s: String| s@)
    }

    /// Whether a prior operation failed catastrophically while holding
    /// exclusive access.
    pub closed spec fn lock_poisoned(self) -> bool {
        self.poisoned
    }

    /// The engine state matches the recorded history, every recorded source
    /// is one the engine accepts — so the history can be replayed — and the
    /// running measures are the history's true totals, within the limits
    /// the pre-screen enforces.
    pub closed spec fn wf(self) -> bool {
        &&& absorbed(self.seg) == self.dict_history()
        &&& forall|i: int|
            0 <= i < self.sources@.len() ==> dict_accepted(#[trigger] self.sources@[i]@)
        &&& self.loaded_bytes as nat == total_bytes(self.dict_history())
        &&& self.loaded_weight as nat == total_weight(self.dict_history())
        &&& self.loaded_bytes <= DICT_BYTE_LIMIT
        &&& self.loaded_weight <= usize::MAX as u128
    }

    /// A fresh engine: empty dictionary, lock intact.
    pub fn new() -> (e: Engine)
        ensures
            e.wf(),
            !e.lock_poisoned(),
            e.dict_history() == Seq::<Seq<char>>::empty(),
    {
        let e = Engine {
            seg: seg_empty(),
            sources: Vec::new(),
            loaded_bytes: 0,
            loaded_weight: 0,
            poisoned: false,
        };
        proof {
            assert(e.dict_history() =~= Seq::<Seq<char>>::empty());
        }
        e
    }

    /// Simulate a catastrophic failure while exclusive access is held: the
    /// lock becomes permanently unusable. Irreversible for this instance.
    pub fn poison(&mut self)
        requires
            old(self).wf(),
        ensures
            final(self).wf(),
            final(self).lock_poisoned(),
            final(self).dict_history() == old(self).dict_history(),
    {
        self.poisoned = true;
    }

    /// Restore the engine to the recorded history by replaying every
    /// accepted source into a fresh engine.
    fn rebuild(&mut self)
        requires
            forall|i: int|
                0 <= i < old(self).sources@.len() ==> dict_accepted(
                    #[trigger] old(self).sources@[i]@,
                ),
            total_bytes(old(self).sources@.map_values(|s: String| s@)) <= DICT_BYTE_LIMIT,
            total_weight(old(self).sources@.map_values(|s: String| s@)) <= usize::MAX,
        ensures
            final(self).sources == old(self).sources,
            final(self).poisoned == old(self).poisoned,
            final(self).loaded_bytes == old(self).loaded_bytes,
            final(self).loaded_weight == old(self).loaded_weight,
            absorbed(final(self).seg) == final(self).sources@.map_values(|s: String| s@),
    {
        let mut fresh = seg_empty();
        let n = self.sources.len();
        let mut i: usize = 0;
        while i < n
            invariant
                i <= n,
                n == self.sources.len(),
                *self == *old(self),
                forall|k: int|
                    0 <= k < self.sources@.len() ==> dict_accepted(#[trigger] self.sources@[k]@),
                total_bytes(self.sources@.map_values(|s: String| s@)) <= DICT_BYTE_LIMIT,
                total_weight(self.sources@.map_values(|s: String| s@)) <= usize::MAX,
                absorbed(fresh) == self.sources@.subrange(0, i as int).map_values(
                    |s: String| s@,
                ),
            decreases n - i,
        {
            proof {
                let full = self.sources@.map_values(|s: String| s@);
                let pre = self.sources@.subrange(0, i as int).map_values(|s: String| s@);
                let ext = self.sources@.subrange(0, i + 1 as int).map_values(|s: String| s@);
                assert(ext =~= pre.push(self.sources@[i as int]@));
                assert(ext.drop_last() =~= pre);
                assert(ext =~= full.subrange(0, i + 1 as int));
                lemma_prefix_totals(full, i + 1 as int);
            }
            let r = seg_load(&mut fresh, self.sources[i].as_str());
            match r {
                Ok(()) => {},
                Err(_) => {
                    proof {
                        assert(false);
                    }
                },
            }
            i += 1;
        }
        proof {
            assert(self.sources@.subrange(0, n as int) =~= self.sources@);
        }
        self.seg = fresh;
    }

    /// Load a dictionary source, extending the live dictionary.
    ///
    /// On a poisoned instance the call fails immediately and changes
    /// nothing. Otherwise it succeeds exactly when the source is within the
    /// engine's budget and the engine accepts it; on success the history
    /// grows by this source, and on any rejection the visible dictionary
    /// state is unchanged — a rejected load is never half-applied.
    pub fn load_dictionary(&mut self, dict: String) -> (r: Result<(), Failure>)
        requires
            old(self).wf(),
        ensures
            final(self).wf(),
            final(self).lock_poisoned() == old(self).lock_poisoned(),
            old(self).lock_poisoned() ==> *final(self) == *old(self),
            old(self).lock_poisoned() ==> (r matches Err(f) && f.kind
                == FailureKind::LockPoisoned),
            !old(self).lock_poisoned() ==> (r is Ok <==> dict_accepted(dict@)
                && within_budget(old(self).dict_history(), dict@)),
            !old(self).lock_poisoned() && r is Ok ==> final(self).dict_history() == old(
                self,
            ).dict_history().push(dict@),
            !old(self).lock_poisoned() && r is Err ==> final(self).dict_history() == old(
                self,
            ).dict_history(),
            !old(self).lock_poisoned() ==> (r matches Err(f) ==> f.kind
                == FailureKind::EngineFailure),
    {
        if self.poisoned {
            return Err(Failure::lock_poisoned());
        }
        let src_bytes = self.screen_bytes(&dict);
        let src_bytes = match src_bytes {
            None => {
                return Err(
                    Failure::engine(
                        String::from_str(
                            "the source would push the dictionary past the engine's prefix-table capacity",
                        ),
                    ),
                );
            },
            Some(b) => b,
        };
        let wt = match weigh_source(dict.as_str()) {
            None => {
                return Err(
                    Failure::engine(
                        String::from_str(
                            "the source's frequency total does not fit the engine's machine range",
                        ),
                    ),
                );
            },
            Some(w) => w,
        };
        if wt > usize::MAX as u128 - self.loaded_weight {
            return Err(
                Failure::engine(
                    String::from_str(
                        "the source's frequency total does not fit the engine's machine range",
                    ),
                ),
            );
        }
        match seg_load(&mut self.seg, dict.as_str()) {
            Ok(()) => {
                let ghost pre = self.sources@;
                self.loaded_bytes = self.loaded_bytes + src_bytes;
                self.loaded_weight = self.loaded_weight + wt;
                self.sources.push(dict);
                proof {
                    let now = self.sources@.map_values(|s: String| s@);
                    assert(now =~= pre.map_values(|s: String| s@).push(
                        self.sources@[pre.len() as int]@,
                    ));
                    assert(now.drop_last() =~= pre.map_values(|s: String| s@));
                }
                Ok(())
            },
            Err(detail) => {
                self.rebuild();
                Err(Failure::engine(detail))
            },
        }
    }

    /// The byte length of a source, unless it would push the cumulative
    /// dictionary size past the engine's prefix-table capacity.
    fn screen_bytes(&self, dict: &String) -> (r: Option<usize>)
        requires
            self.wf(),
        ensures
            r matches Some(b) ==> b as nat == byte_len(dict@) && total_bytes(
                self.dict_history(),
            ) + byte_len(dict@) <= DICT_BYTE_LIMIT,
            r is None ==> total_bytes(self.dict_history()) + byte_len(dict@)
                > DICT_BYTE_LIMIT,
    {
        let sb: &[u8] = dict.as_str().as_bytes();
        let b = sb.len();
        proof {
            broadcast use vstd::slice::group_slice_axioms;

            assert(sb@ == encode_utf8(dict@));
        }
        if b > DICT_BYTE_LIMIT - self.loaded_bytes {
            None
        } else {
            Some(b)
        }
    }

    /// Segment a sentence against the dictionary state as it stands now.
    ///
    /// On a poisoned instance the call fails immediately. Otherwise it
    /// always succeeds, its tokens are exactly what the engine produces for
    /// the current history, and their concatenation — without separators —
    /// restores the sentence exactly.
    pub fn cut(&self, sentence: &str, hmm: bool) -> (r: Result<Vec<String>, Failure>)
        requires
            self.wf(),
        ensures
            self.lock_poisoned() ==> (r matches Err(f) && f.kind
                == FailureKind::LockPoisoned),
            !self.lock_poisoned() ==> (r matches Ok(t) && t@.map_values(|w: String| w@)
                == tokens_of(self.dict_history(), sentence@, hmm)),
            !self.lock_poisoned() ==> (r matches Ok(t) ==> joined(
                t@.map_values(|w: String| w@),
            ) == sentence@),
    {
        if self.poisoned {
            return Err(Failure::lock_poisoned());
        }
        Ok(seg_cut(&self.seg, sentence, hmm))
    }
}

} // verus!
