use telegram_bot::registry::{ChallengeDetails, ChallengeRegistry};

fn details(answer: &str, message_id: u64) -> ChallengeDetails<()> {
    ChallengeDetails {
        correct_answer: answer.to_string(),
        challenge_message_id: message_id,
        start_time: 0,
        tx: (),
    }
}

#[test]
fn test_challenge_state_add_and_get() {
    let mut state: ChallengeRegistry<()> = ChallengeRegistry::new();
    let chat_id = 1001;
    let user_id = 2001;
    let message_id = 12345;
    let correct_answer = "3".to_string();

    assert!(state.create(chat_id, user_id, details(&correct_answer, message_id)));

    assert!(state.has_chat(chat_id), "Chat challenges not found");
    let retrieved_challenge = state.get(chat_id, user_id);
    assert!(retrieved_challenge.is_some(), "User challenge not found");

    let retrieved_challenge = retrieved_challenge.unwrap();
    assert_eq!(retrieved_challenge.correct_answer, correct_answer);
    assert_eq!(retrieved_challenge.challenge_message_id, message_id);
    assert_eq!(retrieved_challenge.start_time, 0);
}

#[test]
fn test_challenge_state_remove() {
    let mut state: ChallengeRegistry<()> = ChallengeRegistry::new();
    let chat_id = 1002;
    let user_id = 2002;
    let message_id = 54321;

    assert!(state.create(chat_id, user_id, details("5", message_id)));
    assert!(state.has_chat(chat_id));
    assert!(state.get(chat_id, user_id).is_some());

    assert!(state.take(chat_id, user_id).is_some());

    assert!(!state.has_chat(chat_id), "Chat entry should be removed if empty");
}

#[test]
fn test_challenge_state_multiple_users_and_chats() {
    let mut state: ChallengeRegistry<()> = ChallengeRegistry::new();

    let chat_id_1 = 1001;
    let user_id_1a = 2001;
    let user_id_1b = 2002;
    let chat_id_2 = 1002;
    let user_id_2a = 3001;

    assert!(state.create(chat_id_1, user_id_1a, details("2", 100)));
    assert!(state.create(chat_id_1, user_id_1b, details("7", 101)));
    assert!(state.create(chat_id_2, user_id_2a, details("1", 200)));

    assert_eq!(state.chat_count(), 2, "Should have two chats");
    assert_eq!(state.pending_in(chat_id_1), 2, "Chat 1 should have two users");
    assert_eq!(state.pending_in(chat_id_2), 1, "Chat 2 should have one user");

    assert_eq!(state.get(chat_id_1, user_id_1a).unwrap().correct_answer, "2");
    assert_eq!(state.get(chat_id_2, user_id_2a).unwrap().correct_answer, "1");

    assert!(state.take(chat_id_1, user_id_1a).is_some());

    assert_eq!(state.pending_in(chat_id_1), 1, "Chat 1 should now have one user");
    assert!(state.get(chat_id_1, user_id_1a).is_none(), "User 1a challenge should be removed");
    assert!(state.get(chat_id_1, user_id_1b).is_some(), "User 1b challenge should still be there");
    assert_eq!(state.pending_in(chat_id_2), 1, "Chat 2 should still have one user");
}

#[test]
fn test_timer_task_expiration() {
    let mut state: ChallengeRegistry<()> = ChallengeRegistry::new();
    let chat_id = 1003;
    let user_id = 2003;
    let message_id = 300;

    assert!(state.create(chat_id, user_id, details("4", message_id)));

    assert!(state.has_chat(chat_id), "Chat challenge should exist");
    assert!(state.get(chat_id, user_id).is_some(), "User challenge should exist");
}

#[test]
fn second_take_finds_nothing() {
    let mut state: ChallengeRegistry<()> = ChallengeRegistry::new();
    assert!(state.create(7, 8, details("x", 1)));
    let first = state.take(7, 8);
    assert_eq!(first.map(|d| d.challenge_message_id), Some(1));
    assert!(state.take(7, 8).is_none());
    assert!(!state.has_chat(7));
    assert_eq!(state.chat_count(), 0);
}

#[test]
fn duplicate_arrival_keeps_the_first_challenge() {
    let mut state: ChallengeRegistry<()> = ChallengeRegistry::new();
    assert!(state.create(1, 2, details("first", 10)));
    assert!(!state.create(1, 2, details("second", 11)));
    assert_eq!(state.get(1, 2).unwrap().correct_answer, "first");
    assert_eq!(state.pending_in(1), 1);
}

#[test]
fn take_of_unknown_key_changes_nothing() {
    let mut state: ChallengeRegistry<()> = ChallengeRegistry::new();
    assert!(state.create(1, 2, details("a", 10)));
    assert!(state.take(1, 3).is_none());
    assert!(state.take(5, 2).is_none());
    assert_eq!(state.pending_in(1), 1);
    assert_eq!(state.pending_in(5), 0);
}
