use std::sync::Arc;
use std::time::Duration;

use telegram_bot::lifecycle::{
    classify_answer, expire, join_step, resolve, JoinAction, JoinEvent, JoinPhase, Resolution,
};
use telegram_bot::registry::{ChallengeDetails, ChallengeRegistry};

fn registry_with(answer: &str, start: u64) -> ChallengeRegistry<()> {
    let mut registry = ChallengeRegistry::new();
    let details = ChallengeDetails {
        correct_answer: answer.to_string(),
        challenge_message_id: 42,
        start_time: start,
        tx: (),
    };
    assert!(registry.create(10, 20, details));
    registry
}

#[test]
fn too_fast_answer_is_banned_even_when_correct() {
    let mut registry = registry_with("tok", 1_000);
    let r = resolve(&mut registry, 10, 20, &"tok".to_string(), 1_500, 2_000);
    assert_eq!(r.map(|(res, _)| res), Some(Resolution::TooFast));

    let mut registry = registry_with("tok", 1_000);
    let r = resolve(&mut registry, 10, 20, &"other".to_string(), 1_500, 2_000);
    assert_eq!(r.map(|(res, _)| res), Some(Resolution::TooFast));
}

#[test]
fn correct_and_wrong_answers() {
    let mut registry = registry_with("tok", 1_000);
    let r = resolve(&mut registry, 10, 20, &"tok".to_string(), 5_000, 2_000);
    let (res, details) = r.unwrap();
    assert_eq!(res, Resolution::Approved);
    assert_eq!(details.challenge_message_id, 42);

    let mut registry = registry_with("tok", 1_000);
    let r = resolve(&mut registry, 10, 20, &"nope".to_string(), 3_000, 2_000);
    assert_eq!(r.map(|(res, _)| res), Some(Resolution::WrongAnswer));
    assert!(!registry.has_chat(10));
}

#[test]
fn classify_at_the_threshold() {
    let t = "a".to_string();
    assert_eq!(classify_answer(&t, &t, 1_999, 2_000), Resolution::TooFast);
    assert_eq!(classify_answer(&t, &t, 2_000, 2_000), Resolution::Approved);
    assert_eq!(classify_answer(&t, &"b".to_string(), 2_000, 2_000), Resolution::WrongAnswer);
}

#[test]
fn clock_before_creation_counts_as_no_time() {
    let mut registry = registry_with("tok", 9_000);
    let r = resolve(&mut registry, 10, 20, &"tok".to_string(), 1_000, 1);
    assert_eq!(r.map(|(res, _)| res), Some(Resolution::TooFast));
}

#[test]
fn second_resolve_is_a_no_op() {
    let mut registry = registry_with("tok", 0);
    let first = resolve(&mut registry, 10, 20, &"tok".to_string(), 10_000, 2_000);
    assert_eq!(first.map(|(res, _)| res), Some(Resolution::Approved));
    let second = resolve(&mut registry, 10, 20, &"tok".to_string(), 10_001, 2_000);
    assert!(second.is_none());
    assert!(expire(&mut registry, 10, 20).is_none());
}

#[test]
fn expiry_then_answer() {
    let mut registry = registry_with("tok", 0);
    let timed_out = expire(&mut registry, 10, 20);
    assert_eq!(timed_out.map(|(res, _)| res), Some(Resolution::Timeout));
    assert!(resolve(&mut registry, 10, 20, &"tok".to_string(), 10_000, 2_000).is_none());
}

#[test]
fn expiry_and_answer_race_resolve_once() {
    let runtime = tokio::runtime::Builder::new_multi_thread()
        .worker_threads(4)
        .enable_time()
        .build()
        .unwrap();
    for trial in 0..30u64 {
        let outcomes = runtime.block_on(async move {
            let registry = Arc::new(tokio::sync::Mutex::new(registry_with("tok", 0)));
            let waiter_registry = Arc::clone(&registry);
            let waiter = tokio::spawn(async move {
                tokio::time::sleep(Duration::from_millis(10)).await;
                expire(&mut *waiter_registry.lock().await, 10, 20).map(|(r, _)| r)
            });
            let answer_registry = Arc::clone(&registry);
            let delay = 5 + trial % 8;
            let answer = tokio::spawn(async move {
                tokio::time::sleep(Duration::from_millis(delay)).await;
                resolve(&mut *answer_registry.lock().await, 10, 20, &"tok".to_string(), 10_000, 0)
                    .map(|(r, _)| r)
            });
            (waiter.await.unwrap(), answer.await.unwrap())
        });
        let resolved = [outcomes.0.is_some(), outcomes.1.is_some()];
        assert_eq!(resolved.iter().filter(|x| **x).count(), 1, "trial {}", trial);
    }
}

#[test]
fn join_sequence_steps() {
    assert_eq!(
        join_step(JoinPhase::Idle, JoinEvent::Joined { exempt: true }),
        (JoinPhase::Exempt, JoinAction::Wait)
    );
    assert_eq!(
        join_step(JoinPhase::Idle, JoinEvent::Joined { exempt: false }),
        (JoinPhase::Restricting, JoinAction::Restrict)
    );
    assert_eq!(
        join_step(JoinPhase::Restricting, JoinEvent::Restricted { ok: false }),
        (JoinPhase::Aborted, JoinAction::Wait)
    );
    assert_eq!(
        join_step(JoinPhase::Restricting, JoinEvent::Restricted { ok: true }),
        (JoinPhase::Prompting, JoinAction::SendPrompt)
    );
    assert_eq!(
        join_step(JoinPhase::Prompting, JoinEvent::PromptSent { message_id: Some(77) }),
        (JoinPhase::Active, JoinAction::Register { message_id: 77 })
    );
    assert_eq!(
        join_step(JoinPhase::Prompting, JoinEvent::PromptSent { message_id: None }),
        (JoinPhase::Compensating, JoinAction::Unrestrict)
    );
    assert_eq!(
        join_step(JoinPhase::Compensating, JoinEvent::Unrestricted),
        (JoinPhase::Aborted, JoinAction::Wait)
    );
    assert_eq!(
        join_step(JoinPhase::Active, JoinEvent::Restricted { ok: true }),
        (JoinPhase::Active, JoinAction::Wait)
    );
}

#[test]
fn resolution_flags() {
    assert!(Resolution::Approved.completed());
    assert!(!Resolution::Approved.banned());
    for r in [Resolution::WrongAnswer, Resolution::TooFast, Resolution::Timeout] {
        assert!(!r.completed());
        assert!(r.banned());
    }
}
