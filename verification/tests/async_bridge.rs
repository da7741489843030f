//! The asynchronous bridge end to end: pending handles, FIFO settlement,
//! determinism, lossless segmentation, and lock poisoning.

use jieba_async::bridge::Completion;
use jieba_async::bridge::FailureKind;
use jieba_async::bridge::Value;
use jieba_async::host::AsyncJieba;

fn resolved_tokens(j: &AsyncJieba, h: usize) -> Vec<String> {
    match j.handle_state(h) {
        Completion::Resolved(Value::Tokens(t)) => t.clone(),
        _ => panic!("expected a resolved token sequence"),
    }
}

fn rejection_kind(j: &AsyncJieba, h: usize) -> FailureKind {
    match j.handle_state(h) {
        Completion::Rejected(f) => f.kind,
        _ => panic!("expected a rejected handle"),
    }
}

fn run_all(j: &mut AsyncJieba) {
    while j.run_next() {}
}

#[test]
fn handle_is_pending_until_a_tick_runs() {
    let mut j = AsyncJieba::new();
    let hc = j.cut(String::from("abc"), None);
    let hl = j.load_dict(String::from("abc 3\n"));
    assert!(matches!(j.handle_state(hc), Completion::Pending));
    assert!(matches!(j.handle_state(hl), Completion::Pending));
    assert_eq!(j.pending_count(), 2);
    assert!(j.run_next());
    assert!(!matches!(j.handle_state(hc), Completion::Pending));
    assert!(matches!(j.handle_state(hl), Completion::Pending));
    assert!(j.run_next());
    assert!(matches!(j.handle_state(hl), Completion::Resolved(Value::Done)));
    assert!(!j.run_next());
}

#[test]
fn default_cut_is_deterministic() {
    let mut a = AsyncJieba::new();
    let h1 = a.cut(String::from("中文测试"), None);
    let h2 = a.cut(String::from("中文测试"), None);
    run_all(&mut a);
    let t1 = resolved_tokens(&a, h1);
    let t2 = resolved_tokens(&a, h2);
    assert_eq!(t1, t2);

    let mut b = AsyncJieba::new();
    let h3 = b.cut(String::from("中文测试"), None);
    run_all(&mut b);
    assert_eq!(t1, resolved_tokens(&b, h3));
    assert_eq!(t1, vec!["中", "文", "测", "试"]);
}

#[test]
fn cut_after_load_is_deterministic() {
    let mut j = AsyncJieba::new();
    let hl = j.load_dict(String::from("中文 1000\n"));
    run_all(&mut j);
    assert!(matches!(j.handle_state(hl), Completion::Resolved(Value::Done)));
    let h1 = j.cut(String::from("中文测试"), Some(false));
    let h2 = j.cut(String::from("中文测试"), Some(false));
    let h3 = j.cut(String::from("中文测试"), Some(false));
    run_all(&mut j);
    let t1 = resolved_tokens(&j, h1);
    assert_eq!(t1, resolved_tokens(&j, h2));
    assert_eq!(t1, resolved_tokens(&j, h3));
}

#[test]
fn load_then_cut_sees_the_whole_dictionary() {
    let mut j = AsyncJieba::new();
    let before = j.cut(String::from("中文测试"), None);
    let load = j.load_dict(String::from("中文 1000\n"));
    let after = j.cut(String::from("中文测试"), None);
    run_all(&mut j);
    assert_eq!(resolved_tokens(&j, before), vec!["中", "文", "测", "试"]);
    assert!(matches!(j.handle_state(load), Completion::Resolved(Value::Done)));
    let t = resolved_tokens(&j, after);
    assert_eq!(t[0], "中文");
    assert_eq!(t.concat(), "中文测试");
}

#[test]
fn cut_concatenation_restores_the_sentence() {
    let sentences = [
        "",
        "中文测试",
        "hello 世界, 123。",
        "line one\r\nline two",
        "纯ASCII mixed 中文 and spaces   ",
    ];
    let mut j = AsyncJieba::new();
    let mut handles = Vec::new();
    for s in sentences {
        handles.push((s, j.cut(String::from(s), Some(false))));
        handles.push((s, j.cut(String::from(s), Some(true))));
    }
    run_all(&mut j);
    for (s, h) in handles {
        assert_eq!(resolved_tokens(&j, h).concat(), s);
    }
}

#[test]
fn rejected_load_leaves_the_dictionary_unchanged() {
    let mut j = AsyncJieba::new();
    let good = j.load_dict(String::from("中文 1000\n"));
    let bad = j.load_dict(String::from("中文 notanumber\n"));
    let after = j.cut(String::from("中文测试"), None);
    run_all(&mut j);
    assert!(matches!(j.handle_state(good), Completion::Resolved(Value::Done)));
    assert_eq!(rejection_kind(&j, bad), FailureKind::EngineFailure);
    // The rejected source is not half-applied: the earlier load still holds.
    assert_eq!(resolved_tokens(&j, after)[0], "中文");
}

#[test]
fn rejected_load_reports_the_engine_failure() {
    let mut j = AsyncJieba::new();
    let bad = j.load_dict(String::from("word x9\n"));
    run_all(&mut j);
    match j.handle_state(bad) {
        Completion::Rejected(f) => {
            assert_eq!(f.kind, FailureKind::EngineFailure);
            assert!(f.message.starts_with("engine failure: "));
        },
        _ => panic!("expected a rejected handle"),
    }
}

#[test]
fn empty_dictionary_source_is_accepted() {
    let mut j = AsyncJieba::new();
    let h = j.load_dict(String::new());
    run_all(&mut j);
    assert!(matches!(j.handle_state(h), Completion::Resolved(Value::Done)));
}

#[test]
fn poisoned_instance_rejects_every_operation() {
    let mut j = AsyncJieba::new();
    let before = j.cut(String::from("abc"), None);
    j.poison();
    let hl = j.load_dict(String::from("中文 1000\n"));
    let hc = j.cut(String::from("中文测试"), None);
    run_all(&mut j);
    assert_eq!(rejection_kind(&j, before), FailureKind::LockPoisoned);
    assert_eq!(rejection_kind(&j, hl), FailureKind::LockPoisoned);
    assert_eq!(rejection_kind(&j, hc), FailureKind::LockPoisoned);
    // Still poisoned on the next round of operations.
    let again = j.cut(String::from("abc"), None);
    run_all(&mut j);
    assert_eq!(rejection_kind(&j, again), FailureKind::LockPoisoned);
    // A fresh instance recovers.
    let mut fresh = AsyncJieba::new();
    let ok = fresh.cut(String::from("abc"), None);
    run_all(&mut fresh);
    assert_eq!(resolved_tokens(&fresh, ok).concat(), "abc");
}

#[test]
fn end_to_end_load_then_cut() {
    let mut j = AsyncJieba::new();
    let load = j.load_dict(String::from("中文 1000\n"));
    assert!(matches!(j.handle_state(load), Completion::Pending));
    assert!(j.run_next());
    assert!(matches!(j.handle_state(load), Completion::Resolved(Value::Done)));
    let cut = j.cut(String::from("中文测试"), Some(false));
    assert!(matches!(j.handle_state(cut), Completion::Pending));
    assert!(j.run_next());
    let tokens = resolved_tokens(&j, cut);
    assert_eq!(tokens[0], "中文");
}

#[test]
fn handle_numbers_count_up_from_zero() {
    let mut j = AsyncJieba::new();
    assert_eq!(j.handle_count(), 0);
    let h0 = j.cut(String::from("a"), None);
    let h1 = j.load_dict(String::from("a 1\n"));
    assert_eq!((h0, h1), (0, 1));
    assert_eq!(j.handle_count(), 2);
    assert_eq!(j.pending_count(), 2);
    run_all(&mut j);
    assert_eq!(j.pending_count(), 0);
    assert_eq!(j.handle_count(), 2);
}
