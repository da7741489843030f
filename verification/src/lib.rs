//! An asynchronous access layer around a stateful text-segmentation engine.
//!
//! The engine itself (the `jieba_rs` segmenter) is an external collaborator;
//! this crate verifies the bridge around it: every public call returns a
//! pending completion handle before any engine work runs, deferred operations
//! execute strictly in call order, each operation holds exclusive access to
//! the engine for its whole body, and a catastrophic failure while that
//! access is held poisons the instance for good.

pub mod bridge;
pub mod engine;
pub mod host;
pub mod screen;
pub mod seg;
pub mod tick;
