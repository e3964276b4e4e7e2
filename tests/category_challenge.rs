use std::collections::HashSet;

use telegram_bot::puzzle::{assign_tokens, category_challenge_for, generate_category_challenge};
use telegram_bot::symbols::{category, symbol_string, CATEGORY_COUNT, SYMBOLS_PER_CATEGORY};

#[test]
fn test_generate_category_challenge() {
    for _ in 1..=5 {
        let (question, correct_uuid, options) = generate_category_challenge();

        assert_eq!(options.len(), 5);

        let has_correct_uuid = options.iter().any(|(_, uuid)| *uuid == correct_uuid);
        assert!(has_correct_uuid, "None of the options matches the correct UUID");

        assert!(
            question.contains("¿Cuál de estos NO es "),
            "Question doesn't have expected format"
        );
    }
}

#[test]
fn animals_with_a_food_foil() {
    let animals = category(0);
    let food = category(1);
    assert_eq!(animals.name, "animales");
    assert_eq!(food.name, "comida");
    for _ in 0..50 {
        let (question, correct, answers) = category_challenge_for(0, 1);
        assert_eq!(question, "¿Cuál de estos NO es un animal?");
        let correct_label = &answers.iter().find(|(_, t)| *t == correct).unwrap().0;
        assert!(food.emojis.contains(correct_label));
        assert!(!animals.emojis.contains(correct_label));
        let animal_labels =
            answers.iter().filter(|(l, _)| animals.emojis.contains(l)).count();
        assert_eq!(animal_labels, 4);
    }
}

#[test]
fn correct_symbol_never_of_the_main_category() {
    let categories: Vec<_> = (0..CATEGORY_COUNT).map(category).collect();
    for _ in 0..500 {
        let (question, correct, answers) = generate_category_challenge();
        let main = categories
            .iter()
            .position(|c| question == format!("¿Cuál de estos NO es {}?", c.singular_form))
            .unwrap();
        let labels: HashSet<&String> = answers.iter().map(|(l, _)| l).collect();
        let tokens: HashSet<&String> = answers.iter().map(|(_, t)| t).collect();
        assert_eq!(labels.len(), 5);
        assert_eq!(tokens.len(), 5);
        assert_eq!(answers.iter().filter(|(_, t)| *t == correct).count(), 1);
        for (label, token) in &answers {
            let in_main = categories[main].emojis.contains(label);
            assert_eq!(in_main, *token != correct);
        }
    }
}

#[test]
fn catalogue_texts_are_distinct() {
    let mut seen = HashSet::new();
    for c in 0..CATEGORY_COUNT {
        let cat = category(c);
        assert_eq!(cat.emojis.len(), SYMBOLS_PER_CATEGORY);
        for e in cat.emojis {
            assert!(seen.insert(e));
        }
    }
    assert_eq!(symbol_string(0), "🐕");
    assert_eq!(symbol_string(52), "🏎️");
    assert_eq!(category(4).singular_form, "un fenómeno climático");
}

#[test]
fn tokens_are_distinct_identifiers() {
    let tokens = assign_tokens(12);
    assert_eq!(tokens.len(), 12);
    let set: HashSet<&String> = tokens.iter().collect();
    assert_eq!(set.len(), 12);
    for t in &tokens {
        assert_eq!(t.len(), 36);
        assert_eq!(t.matches('-').count(), 4);
    }
}
