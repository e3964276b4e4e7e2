use std::collections::HashSet;

use telegram_bot::puzzle::{generate_math_problem, math_problem_for};
use telegram_bot::symbols::digit_string;

const KEYCAPS: [(&str, i32); 10] = [
    ("0️⃣", 0),
    ("1️⃣", 1),
    ("2️⃣", 2),
    ("3️⃣", 3),
    ("4️⃣", 4),
    ("5️⃣", 5),
    ("6️⃣", 6),
    ("7️⃣", 7),
    ("8️⃣", 8),
    ("9️⃣", 9),
];

fn keycap_value(label: &str) -> i32 {
    KEYCAPS.iter().find(|(emoji, _)| *emoji == label).unwrap().1
}

#[test]
fn test_generate_math_problem_basic_structure() {
    let (problem, correct_uuid, answers) = generate_math_problem();

    assert!(!problem.is_empty(), "Problem text should not be empty");
    assert!(!correct_uuid.is_empty(), "Correct UUID should not be empty");
    assert_eq!(answers.len(), 5, "Should have exactly 5 answer buttons");

    assert!(problem.contains("➖"), "Problem should contain subtraction symbol");
    assert!(problem.contains("❓"), "Problem should contain question mark");

    for (emoji_text, uuid) in &answers {
        assert!(!emoji_text.is_empty(), "Answer text should not be empty");
        assert!(!uuid.is_empty(), "Answer UUID should not be empty");
        assert!(emoji_text.ends_with("️⃣"), "Answer should be a number emoji");
    }
}

#[test]
fn test_generate_math_problem_answer_uniqueness() {
    let (_, _, answers) = generate_math_problem();

    let mut seen_texts = HashSet::new();
    for (emoji_text, _) in &answers {
        assert!(
            seen_texts.insert(emoji_text.clone()),
            "All answer texts should be unique, found duplicate: {}",
            emoji_text
        );
    }

    let mut seen_uuids = HashSet::new();
    for (_, uuid) in &answers {
        assert!(
            seen_uuids.insert(uuid.clone()),
            "All UUIDs should be unique, found duplicate: {}",
            uuid
        );
    }
}

#[test]
fn test_generate_math_problem_correct_answer_present() {
    let (problem, correct_uuid, answers) = generate_math_problem();

    let problem_parts: Vec<&str> = problem.split(" ").collect();
    assert_eq!(problem_parts.len(), 5, "Problem should have 5 parts separated by spaces");

    let correct_position = answers.iter().position(|(_, uuid)| uuid == &correct_uuid);
    assert!(correct_position.is_some(), "Correct UUID should be found in answers");

    let pos = correct_position.unwrap();
    assert!(
        pos > 0,
        "Correct answer should not be in first position (index 0), found at index {}",
        pos
    );
}

#[test]
fn test_generate_math_problem_first_answer_always_wrong() {
    for _ in 0..10 {
        let (_, correct_uuid, answers) = generate_math_problem();

        let first_answer_uuid = &answers[0].1;
        assert_ne!(
            first_answer_uuid, &correct_uuid,
            "First answer should never be the correct answer"
        );
    }
}

#[test]
fn test_generate_math_problem_mathematical_correctness() {
    let (problem, correct_uuid, answers) = generate_math_problem();

    let problem_parts: Vec<&str> = problem.split(" ").collect();
    let a = keycap_value(problem_parts[0]);
    let b = keycap_value(problem_parts[2]);

    assert!(a >= b, "A should be greater than or equal to B, got A={}, B={}", a, b);

    let expected_answer = a - b;
    let expected_emoji = KEYCAPS.iter().find(|(_, num)| *num == expected_answer).unwrap().0;

    let correct_answer_emoji = answers
        .iter()
        .find(|(_, uuid)| uuid == &correct_uuid)
        .map(|(emoji, _)| emoji)
        .unwrap();

    assert_eq!(
        correct_answer_emoji, expected_emoji,
        "Correct answer emoji should match calculated result. Expected: {}, Found: {}",
        expected_emoji, correct_answer_emoji
    );
}

#[test]
fn test_generate_math_problem_consistency() {
    let mut problems = HashSet::new();
    let mut correct_uuids = HashSet::new();

    for _ in 0..20 {
        let (problem, correct_uuid, answers) = generate_math_problem();

        assert_eq!(answers.len(), 5, "Should always have 5 answers");
        assert!(!problem.is_empty(), "Problem should not be empty");
        assert!(!correct_uuid.is_empty(), "Correct UUID should not be empty");

        problems.insert(problem);
        correct_uuids.insert(correct_uuid);
    }

    assert!(problems.len() > 1, "Should generate different problems");
    assert_eq!(correct_uuids.len(), 20, "Each run should generate a unique UUID");
}

#[test]
fn five_minus_three_resolves_to_two() {
    for _ in 0..50 {
        let (problem, correct, answers) = math_problem_for(5, 3);
        assert_eq!(problem, "5️⃣ ➖ 3️⃣ = ❓");
        let carrying: Vec<&(String, String)> =
            answers.iter().filter(|(_, token)| *token == correct).collect();
        assert_eq!(carrying.len(), 1);
        assert_eq!(carrying[0].0, "2️⃣");
        assert_ne!(answers[0].1, correct);
        assert_ne!(answers[0].0, "2️⃣");
    }
}

#[test]
fn first_slot_never_correct_over_many_draws() {
    for _ in 0..1000 {
        let (problem, correct, answers) = generate_math_problem();
        let parts: Vec<&str> = problem.split(' ').collect();
        let a = keycap_value(parts[0]);
        let b = keycap_value(parts[2]);
        assert!(a >= b && a <= 9);
        assert!((0..=9).contains(&(a - b)));
        assert_ne!(answers[0].1, correct);
        let labels: HashSet<&String> = answers.iter().map(|(l, _)| l).collect();
        let tokens: HashSet<&String> = answers.iter().map(|(_, t)| t).collect();
        assert_eq!(labels.len(), 5);
        assert_eq!(tokens.len(), 5);
        assert_eq!(answers.iter().filter(|(_, t)| *t == correct).count(), 1);
    }
}

#[test]
fn zero_minus_zero_offers_zero() {
    let (problem, correct, answers) = math_problem_for(0, 0);
    assert_eq!(problem, "0️⃣ ➖ 0️⃣ = ❓");
    let slot = answers.iter().position(|(_, t)| *t == correct).unwrap();
    assert!(slot > 0);
    assert_eq!(answers[slot].0, "0️⃣");
}

#[test]
fn keycap_digits_render() {
    assert_eq!(digit_string(7), "7\u{FE0F}\u{20E3}");
    assert_eq!(digit_string(0), "0️⃣");
}

#[test]
fn answer_order_varies_between_draws() {
    let mut correct_slots = HashSet::new();
    let mut first_labels = HashSet::new();
    for _ in 0..200 {
        let (_, correct, answers) = math_problem_for(9, 4);
        correct_slots.insert(answers.iter().position(|(_, t)| *t == correct).unwrap());
        first_labels.insert(answers[0].0.clone());
    }
    assert!(correct_slots.len() > 1);
    assert!(first_labels.len() > 1);
    assert!(!correct_slots.contains(&0));
}
