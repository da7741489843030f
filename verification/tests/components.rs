//! The individual components: the deferral, the engine handle, and the
//! completion envelope.

use jieba_async::bridge::Completion;
use jieba_async::bridge::Failure;
use jieba_async::bridge::FailureKind;
use jieba_async::bridge::Value;
use jieba_async::bridge::settle;
use jieba_async::engine::Engine;
use jieba_async::tick::NextTick;
use jieba_async::tick::TickState;

#[test]
fn deferral_is_pending_then_ready_for_good() {
    let mut t = NextTick::new();
    assert_eq!(t.poll(), TickState::Pending);
    assert_eq!(t.poll(), TickState::Pending);
    t.elapse();
    assert_eq!(t.poll(), TickState::Ready);
    t.elapse();
    assert_eq!(t.poll(), TickState::Ready);
}

#[test]
fn engine_cut_uses_the_loaded_dictionary() {
    let mut e = Engine::new();
    let empty_dict = e.cut("中文测试", false).unwrap();
    assert_eq!(empty_dict, vec!["中", "文", "测", "试"]);
    assert!(e.load_dictionary(String::from("中文 1000\n")).is_ok());
    let loaded = e.cut("中文测试", false).unwrap();
    assert_eq!(loaded[0], "中文");
    assert_eq!(loaded.concat(), "中文测试");
}

#[test]
fn engine_rejected_load_is_not_half_applied() {
    let mut e = Engine::new();
    assert!(e.load_dictionary(String::from("你好 50\n")).is_ok());
    let before = e.cut("你好世界", false).unwrap();
    assert_eq!(before[0], "你好");
    // The second line is malformed, yet the first would already have been
    // merged by the engine: the handle must roll the whole source back.
    let r = e.load_dictionary(String::from("世界 80\n你好 oops\n"));
    match r {
        Err(f) => assert_eq!(f.kind, FailureKind::EngineFailure),
        Ok(()) => panic!("a malformed source must be rejected"),
    }
    let after = e.cut("你好世界", false).unwrap();
    assert_eq!(after, before);
    assert_ne!(after[1], "世界");
}

#[test]
fn engine_poison_is_terminal() {
    let mut e = Engine::new();
    e.poison();
    match e.cut("abc", false) {
        Err(f) => {
            assert_eq!(f.kind, FailureKind::LockPoisoned);
            assert!(f.message.contains("poisoned"));
        },
        Ok(_) => panic!("a poisoned engine must reject"),
    }
    match e.load_dictionary(String::from("abc 1\n")) {
        Err(f) => assert_eq!(f.kind, FailureKind::LockPoisoned),
        Ok(()) => panic!("a poisoned engine must reject"),
    }
}

#[test]
fn failure_constructors_carry_kind_and_message() {
    let f = Failure::engine(String::from("boom"));
    assert_eq!(f.kind, FailureKind::EngineFailure);
    assert_eq!(f.message, "engine failure: boom");
    let m = Failure::marshalling(String::from("no host value"));
    assert_eq!(m.kind, FailureKind::MarshallingFailure);
    assert_eq!(m.message, "marshalling failure: no host value");
    let p = Failure::lock_poisoned();
    assert_eq!(p.kind, FailureKind::LockPoisoned);
}

#[test]
fn settle_resolves_values_and_rejects_failures() {
    match settle(Ok(Value::Done)) {
        Completion::Resolved(Value::Done) => {},
        _ => panic!("a success sentinel must resolve"),
    }
    match settle(Ok(Value::Tokens(vec![String::from("a"), String::from("b")]))) {
        Completion::Resolved(Value::Tokens(t)) => assert_eq!(t, vec!["a", "b"]),
        _ => panic!("tokens must resolve"),
    }
    match settle(Err(Failure::engine(String::from("bad")))) {
        Completion::Rejected(f) => {
            assert_eq!(f.kind, FailureKind::EngineFailure);
            assert_eq!(f.message, "engine failure: bad");
        },
        _ => panic!("a failure must reject"),
    }
}

#[test]
fn oversized_frequency_total_is_rejected_before_the_engine() {
    let mut e = Engine::new();
    // Parses cleanly line by line, but the frequencies sum past the machine
    // range the engine totals them in.
    let r = e.load_dictionary(String::from("a 18446744073709551615\nb 1\n"));
    match r {
        Err(f) => assert_eq!(f.kind, FailureKind::EngineFailure),
        Ok(()) => panic!("an overflowing frequency total must be rejected"),
    }
    // The rejection consumed no budget and left the dictionary untouched.
    assert!(e.load_dictionary(String::from("中文 1000\n")).is_ok());
    assert_eq!(e.cut("中文测试", false).unwrap()[0], "中文");
}

#[test]
fn frequency_budget_is_cumulative_across_loads() {
    let mut e = Engine::new();
    assert!(e.load_dictionary(String::from("a 18446744073709551615\n")).is_ok());
    let r = e.load_dictionary(String::from("b 1\n"));
    match r {
        Err(f) => assert_eq!(f.kind, FailureKind::EngineFailure),
        Ok(()) => panic!("the running frequency total must stay in range"),
    }
    assert_eq!(e.cut("ab", false).unwrap(), vec!["ab"]);
}

#[test]
fn oversized_source_is_rejected_before_the_engine() {
    let mut e = Engine::new();
    // One byte over the cumulative cap that keeps the engine's prefix
    // table below its hard limit.
    let r = e.load_dictionary("x".repeat(16_777_216));
    match r {
        Err(f) => assert_eq!(f.kind, FailureKind::EngineFailure),
        Ok(()) => panic!("an oversized source must be rejected"),
    }
    assert!(e.load_dictionary(String::from("中文 1000\n")).is_ok());
}
