//! The two puzzle generators. A puzzle is a prompt, the token of the correct
//! answer, and five answer options given as (label, token) pairs in display
//! order.
use vstd::prelude::*;

use crate::chance::{new_token, random_below, shuffle};
use crate::symbols::{
    category_of, category_singular, category_singular_str, digit_string, digit_symbol, lemma_digit_symbol_injective, lemma_symbol_text_injective,
    symbol_string, symbol_text, CATEGORY_COUNT, SYMBOLS_PER_CATEGORY, SYMBOL_COUNT,
};
use crate::text::{char_text, decimal_digits, lemma_decimal_digits_injective, natural_text};

verus! {

broadcast use vstd::seq_lib::group_to_multiset_ensures;

/// Number of answer options of every puzzle.
pub const ANSWER_COUNT: usize = 5;

/// Whether no two elements of `v` have the same text.
pub open spec fn pairwise_distinct_texts(v: Seq<String>) -> bool {
    forall|i: int, j: int|
        0 <= i < v.len() && 0 <= j < v.len() && i != j ==> #[trigger] v[i]@ != #[trigger] v[j]@
}

/// Whether some element of `v` has the text of `t`.
fn holds_text(v: &Vec<String>, t: &String) -> (r: bool)
    ensures
        r == exists|i: int| 0 <= i < v@.len() && v@[i]@ == t@,
{
    let mut j: usize = 0;
    while j < v.len()
        invariant
            j <= v@.len(),
            forall|i: int| 0 <= i < j ==> v@[i]@ != t@,
        decreases v@.len() - j,
    {
        if v[j] == *t {
            return true;
        }
        j = j + 1;
    }
    false
}

/// Draws `n` answer tokens, pairwise distinct. A fresh identifier that repeats
/// an earlier one, which is vanishingly unlikely, gets `-` and the slot's
/// number appended, so that the tokens stay distinct whatever the draws.
pub fn assign_tokens(n: usize) -> (r: Vec<String>)
    ensures
        r@.len() == n,
        pairwise_distinct_texts(r@),
        forall|i: int| 0 <= i < n ==> (#[trigger] r@[i])@.len() >= 36,
{
    let mut tokens: Vec<String> = Vec::new();
    let mut i: usize = 0;
    while i < n
        invariant
            i <= n,
            tokens@.len() == i,
            pairwise_distinct_texts(tokens@),
            forall|a: int|
                0 <= a < i ==> {
                    ||| (#[trigger] tokens@[a])@.len() == 36
                    ||| tokens@[a]@.len() > 37 && tokens@[a]@.subrange(37, tokens@[a]@.len() as int)
                        == decimal_digits(a as nat)
                },
        decreases n - i,
    {
        let mut token = new_token();
        if holds_text(&tokens, &token) {
            let dash = char_text('-');
            let number = natural_text(i as u64);
            token.append(dash.as_str());
            token.append(number.as_str());
            assert(token@.subrange(37, token@.len() as int) =~= decimal_digits(i as nat));
        }
        let ghost prev = tokens@;
        tokens.push(token);
        assert forall|a: int, b: int|
            0 <= a < tokens@.len() && 0 <= b < tokens@.len() && a != b implies #[trigger] tokens@[a]@
            != #[trigger] tokens@[b]@ by {
            if a < i && b < i {
                assert(prev[a] == tokens@[a] && prev[b] == tokens@[b]);
            } else if tokens@[a]@.len() > 37 && tokens@[b]@.len() > 37 {
                if tokens@[a]@ == tokens@[b]@ {
                    lemma_decimal_digits_injective(a as nat, b as nat);
                }
            }
        }
        i = i + 1;
    }
    tokens
}

/// Draws `count` distinct elements of `pool`, each one uniformly among those
/// not drawn yet.
pub fn draw_distinct(pool: Vec<u8>, count: usize) -> (r: Vec<u8>)
    requires
        pool@.no_duplicates(),
        count <= pool@.len(),
    ensures
        r@.len() == count,
        r@.no_duplicates(),
        forall|i: int| 0 <= i < count ==> pool@.contains(#[trigger] r@[i]),
{
    let ghost all = pool@;
    let mut rest = pool;
    let mut drawn: Vec<u8> = Vec::new();
    while drawn.len() < count
        invariant
            drawn@.len() <= count <= all.len(),
            rest@.len() + drawn@.len() == all.len(),
            rest@.no_duplicates(),
            drawn@.no_duplicates(),
            rest@.disjoint(drawn@),
            forall|x: u8| rest@.contains(x) ==> all.contains(x),
            forall|i: int| 0 <= i < drawn@.len() ==> all.contains(#[trigger] drawn@[i]),
        decreases count - drawn@.len(),
    {
        let k = random_below(rest.len());
        let ghost before = rest@;
        let x = rest.remove(k);
        assert(before.contains(x));
        assert forall|y: u8| rest@.contains(y) implies before.contains(y) by {
            let j = choose|j: int| 0 <= j < rest@.len() && rest@[j] == y;
            if j < k {
                assert(before[j] == y);
            } else {
                assert(before[j + 1] == y);
            }
        }
        drawn.push(x);
    }
    drawn
}

/// A puzzle: the prompt, the token of the correct answer, and the answer
/// options as (label, token) pairs in display order.
pub type Puzzle = (String, String, Vec<(String, String)>);

/// Whether no two answers have the same label.
pub open spec fn labels_distinct(answers: Seq<(String, String)>) -> bool {
    forall|i: int, j: int|
        0 <= i < answers.len() && 0 <= j < answers.len() && i != j ==> (#[trigger] answers[i]).0@
            != (#[trigger] answers[j]).0@
}

/// Whether no two answers have the same token.
pub open spec fn tokens_distinct(answers: Seq<(String, String)>) -> bool {
    forall|i: int, j: int|
        0 <= i < answers.len() && 0 <= j < answers.len() && i != j ==> (#[trigger] answers[i]).1@
            != (#[trigger] answers[j]).1@
}

/// The shape every puzzle has: five answers, labels pairwise distinct, tokens
/// pairwise distinct, and one answer carrying the announced correct token.
pub open spec fn well_formed_puzzle(p: Puzzle) -> bool {
    &&& p.2@.len() == ANSWER_COUNT
    &&& labels_distinct(p.2@)
    &&& tokens_distinct(p.2@)
    &&& exists|i: int| 0 <= i < p.2@.len() && (#[trigger] p.2@[i]).1@ == p.1@
}

/// Pairs `labels[i]` with `tokens[i]`; the correct token is that of slot
/// `correct`.
fn lay_out(labels: &Vec<String>, tokens: &Vec<String>, correct: usize) -> (r: (
    String,
    Vec<(String, String)>,
))
    requires
        labels@.len() == tokens@.len(),
        correct < tokens@.len(),
    ensures
        r.0@ == tokens@[correct as int]@,
        r.1@.len() == labels@.len(),
        forall|i: int|
            0 <= i < labels@.len() ==> (#[trigger] r.1@[i]).0@ == labels@[i]@ && r.1@[i].1@
                == tokens@[i]@,
{
    let mut answers: Vec<(String, String)> = Vec::new();
    let mut i: usize = 0;
    while i < labels.len()
        invariant
            labels@.len() == tokens@.len(),
            i <= labels@.len(),
            answers@.len() == i,
            forall|k: int|
                0 <= k < i ==> (#[trigger] answers@[k]).0@ == labels@[k]@ && answers@[k].1@
                    == tokens@[k]@,
        decreases labels@.len() - i,
    {
        answers.push((labels[i].clone(), tokens[i].clone()));
        i = i + 1;
    }
    (tokens[correct].clone(), answers)
}

/// The prompt of the subtraction `a - b`: the keycaps of `a` and `b` around a
/// minus sign, then an equals sign and a question mark, separated by spaces.
pub open spec fn math_prompt(a: int, b: int) -> Seq<char> {
    digit_symbol(a) + " \u{2796} "@ + digit_symbol(b) + " = \u{2753}"@
}

/// Whether `label` is the keycap emoji of a digit.
pub open spec fn is_digit_symbol(label: Seq<char>) -> bool {
    exists|d: int| 0 <= d <= 9 && label == digit_symbol(d)
}

/// What the subtraction puzzle `a - b` shows: its prompt, keycap digits as
/// labels, the correct token on the answer labelled `a - b` and only there,
/// and never the correct token in the first slot.
pub open spec fn is_math_puzzle(p: Puzzle, a: int, b: int) -> bool {
    &&& 0 <= b <= a <= 9
    &&& p.0@ == math_prompt(a, b)
    &&& forall|i: int| 0 <= i < p.2@.len() ==> is_digit_symbol((#[trigger] p.2@[i]).0@)
    &&& forall|i: int|
        0 <= i < p.2@.len() ==> ((#[trigger] p.2@[i]).1@ == p.1@ <==> p.2@[i].0@ == digit_symbol(
            a - b,
        ))
    &&& p.2@.len() > 0 && p.2@[0].1@ != p.1@
}

/// The digits 0 to 9 but `skip`, in increasing order.
fn digits_except(skip: u8) -> (r: Vec<u8>)
    requires
        skip <= 9,
    ensures
        r@.len() == 9,
        r@.no_duplicates(),
        forall|x: u8| r@.contains(x) <==> x <= 9 && x != skip,
{
    let mut r: Vec<u8> = Vec::new();
    let mut d: u8 = 0;
    while d <= 9
        invariant
            skip <= 9,
            d <= 10,
            r@.len() == if d > skip { d - 1 } else { d as int },
            r@.no_duplicates(),
            forall|i: int| 0 <= i < r@.len() ==> #[trigger] r@[i] < d,
            forall|x: u8| r@.contains(x) <==> x < d && x != skip,
        decreases 10 - d,
    {
        if d != skip {
            let ghost prev = r@;
            r.push(d);
            assert forall|x: u8| r@.contains(x) <==> x <= d && x != skip by {
                if prev.contains(x) {
                    let k = choose|k: int| 0 <= k < prev.len() && prev[k] == x;
                    assert(r@[k] == x);
                }
                if r@.contains(x) && x != d {
                    let k = choose|k: int| 0 <= k < r@.len() && r@[k] == x;
                    assert(prev[k] == x);
                }
                if x == d {
                    assert(r@[r@.len() - 1] == x);
                }
            }
        }
        d = d + 1;
    }
    r
}

/// The subtraction prompt for `a - b`.
fn math_prompt_string(a: u8, b: u8) -> (r: String)
    requires
        a <= 9,
        b <= 9,
    ensures
        r@ == math_prompt(a as int, b as int),
{
    let mut prompt = digit_string(a);
    prompt.append(" \u{2796} ");
    let second = digit_string(b);
    prompt.append(second.as_str());
    prompt.append(" = \u{2753}");
    prompt
}

/// The subtraction puzzle `a - b`. Four wrong results are drawn without
/// repetition; one of them, chosen at random, is shown first, and the other
/// three are shuffled together with the correct result behind it. A client
/// that always picks the first option therefore always fails.
pub fn math_problem_for(a: u8, b: u8) -> (r: Puzzle)
    requires
        b <= a <= 9,
    ensures
        well_formed_puzzle(r),
        is_math_puzzle(r, a as int, b as int),
{
    let result = a - b;
    let distractors = draw_distinct(digits_except(result), 4);
    let first = random_below(4);
    let mut rest = distractors;
    let forced = rest.remove(first);
    let ghost taken = rest@;
    rest.push(result);
    let ghost before = rest@;
    assert(before.no_duplicates()) by {
        assert forall|i: int, j: int|
            0 <= i < before.len() && 0 <= j < before.len() && i != j implies before[i]
            != before[j] by {
            if i < 3 && j < 3 {
                assert(taken[i] == distractors@[if i < first { i } else { i + 1 }]);
                assert(taken[j] == distractors@[if j < first { j } else { j + 1 }]);
            } else if i < 3 {
                assert(taken[i] == distractors@[if i < first { i } else { i + 1 }]);
            } else if j < 3 {
                assert(taken[j] == distractors@[if j < first { j } else { j + 1 }]);
            }
        }
    }
    assert(!before.contains(forced)) by {
        assert forall|i: int| 0 <= i < before.len() implies before[i] != forced by {
            if i < 3 {
                assert(taken[i] == distractors@[if i < first { i } else { i + 1 }]);
            }
        }
    }
    shuffle(&mut rest);
    let ghost shuffled = rest@;
    proof {
        before.lemma_multiset_has_no_duplicates();
        shuffled.lemma_multiset_has_no_duplicates_conv();
        assert(before[3] == result);
        assert(before.to_multiset().count(result) > 0);
        assert(shuffled.to_multiset().count(result) > 0);
        assert(shuffled.to_multiset().count(forced) == 0);
        assert(shuffled.to_multiset().len() == before.to_multiset().len());
        assert forall|x: u8| shuffled.contains(x) implies x <= 9 by {
            assert(shuffled.to_multiset().count(x) > 0);
            assert(before.contains(x));
            let i = choose|i: int| 0 <= i < before.len() && before[i] == x;
            if i < 3 {
                assert(taken[i] == distractors@[if i < first { i } else { i + 1 }]);
            }
        }
    }
    let mut order: Vec<u8> = Vec::new();
    order.push(forced);
    order.append(&mut rest);
    let ghost shown = order@;
    assert(shown.no_duplicates()) by {
        assert forall|i: int, j: int|
            0 <= i < shown.len() && 0 <= j < shown.len() && i != j implies shown[i]
            != shown[j] by {
            if i == 0 {
                assert(shown[j] == shuffled[j - 1]);
            } else if j == 0 {
                assert(shown[i] == shuffled[i - 1]);
            } else {
                assert(shown[i] == shuffled[i - 1] && shown[j] == shuffled[j - 1]);
            }
        }
    }
    assert forall|i: int| 0 <= i < shown.len() implies #[trigger] shown[i] <= 9 by {
        if i > 0 {
            assert(shown[i] == shuffled[i - 1]);
            assert(shuffled.contains(shown[i]));
        }
    }
    let mut labels: Vec<String> = Vec::new();
    let mut correct: usize = 0;
    let mut i: usize = 0;
    while i < order.len()
        invariant
            shown == order@,
            shown.len() == ANSWER_COUNT,
            forall|k: int| 0 <= k < shown.len() ==> #[trigger] shown[k] <= 9,
            i <= shown.len(),
            labels@.len() == i,
            correct < ANSWER_COUNT,
            forall|k: int| 0 <= k < i ==> (#[trigger] labels@[k])@ == digit_symbol(shown[k] as int),
            (exists|k: int| 0 <= k < i && shown[k] == result) ==> shown[correct as int] == result,
        decreases shown.len() - i,
    {
        labels.push(digit_string(order[i]));
        if order[i] == result {
            correct = i;
        }
        i = i + 1;
    }
    assert(shown[correct as int] == result) by {
        let k = choose|k: int| 0 <= k < shuffled.len() && shuffled[k] == result;
        assert(shown[k + 1] == result);
    }
    let tokens = assign_tokens(ANSWER_COUNT);
    let laid = lay_out(&labels, &tokens, correct);
    let prompt = math_prompt_string(a, b);
    let r = (prompt, laid.0, laid.1);
    proof {
        assert forall|i: int, j: int|
            0 <= i < 5 && 0 <= j < 5 && i != j implies (#[trigger] r.2@[i]).0@ != (
            #[trigger] r.2@[j]).0@ by {
            lemma_digit_symbol_injective(shown[i] as int, shown[j] as int);
        }
        assert forall|i: int| 0 <= i < 5 implies is_digit_symbol((#[trigger] r.2@[i]).0@) by {
            assert(r.2@[i].0@ == digit_symbol(shown[i] as int));
        }
        assert forall|i: int|
            0 <= i < 5 implies ((#[trigger] r.2@[i]).1@ == r.1@ <==> r.2@[i].0@ == digit_symbol(
            a - b,
        )) by {
            if i != correct {
                lemma_digit_symbol_injective(shown[i] as int, result as int);
            }
        }
        assert(r.2@[correct as int].1@ == r.1@);
    }
    r
}

/// A subtraction puzzle with `a` drawn from 0 to 9 and `b` from 0 to `a`, so
/// that the result is never negative.
pub fn generate_math_problem() -> (r: Puzzle)
    ensures
        well_formed_puzzle(r),
        exists|a: int, b: int| is_math_puzzle(r, a, b),
{
    let a = random_below(10);
    let b = random_below(a + 1);
    math_problem_for(a as u8, b as u8)
}

/// The prompt asking which option is not of category `main`.
pub open spec fn category_prompt(main: int) -> Seq<char> {
    "\u{bf}Cu\u{e1}l de estos NO es "@ + category_singular(main) + "?"@
}

/// Whether `answer` shows a catalogue symbol of category `main` or `foil`,
/// and carries the `correct` token exactly when that symbol is of `foil`.
pub open spec fn is_category_answer(
    answer: (String, String),
    correct: Seq<char>,
    main: int,
    foil: int,
) -> bool {
    exists|s: int|
        0 <= s < SYMBOL_COUNT && answer.0@ == #[trigger] symbol_text(s) && (category_of(s) == main
            || category_of(s) == foil) && (answer.1@ == correct <==> category_of(s) == foil)
}

/// What the category puzzle with main category `main` and foil category
/// `foil` shows: its prompt, and answers from those two categories, the
/// correct one being the answer from `foil`.
pub open spec fn is_category_puzzle(p: Puzzle, main: int, foil: int) -> bool {
    &&& 0 <= main < CATEGORY_COUNT
    &&& 0 <= foil < CATEGORY_COUNT
    &&& main != foil
    &&& p.0@ == category_prompt(main)
    &&& forall|i: int|
        0 <= i < p.2@.len() ==> is_category_answer(#[trigger] p.2@[i], p.1@, main, foil)
}

/// Whether the answer carrying the correct token shows none of the symbols
/// of category `main`.
pub open spec fn correct_outside_category(p: Puzzle, main: int) -> bool {
    forall|i: int, k: int|
        0 <= i < p.2@.len() && 0 <= k < SYMBOLS_PER_CATEGORY && (#[trigger] p.2@[i]).1@ == p.1@
            ==> p.2@[i].0@ != #[trigger] symbol_text(main * SYMBOLS_PER_CATEGORY + k)
}

/// The indices 0 to `n - 1`, in order.
fn indices_below(n: u8) -> (r: Vec<u8>)
    ensures
        r@.len() == n,
        forall|i: int| 0 <= i < n ==> #[trigger] r@[i] == i,
{
    let mut r: Vec<u8> = Vec::new();
    let mut i: u8 = 0;
    while i < n
        invariant
            i <= n,
            r@.len() == i,
            forall|k: int| 0 <= k < i ==> #[trigger] r@[k] == k,
        decreases n - i,
    {
        r.push(i);
        i = i + 1;
    }
    r
}

/// The category prompt for `main`.
fn category_prompt_string(main: usize) -> (r: String)
    requires
        main < CATEGORY_COUNT,
    ensures
        r@ == category_prompt(main as int),
{
    let mut prompt = String::from_str("\u{bf}Cu\u{e1}l de estos NO es ");
    prompt.append(category_singular_str(main));
    prompt.append("?");
    prompt
}

/// The category puzzle with main category `main` and foil category `foil`:
/// four distinct symbols of `main` and one of `foil`, shuffled together. The
/// foil's symbol is the correct answer.
pub fn category_challenge_for(main: usize, foil: usize) -> (r: Puzzle)
    requires
        main < CATEGORY_COUNT,
        foil < CATEGORY_COUNT,
        main != foil,
    ensures
        well_formed_puzzle(r),
        is_category_puzzle(r, main as int, foil as int),
        correct_outside_category(r, main as int),
{
    let pool = indices_below(15);
    proof {
        assert forall|i: int, j: int|
            0 <= i < pool@.len() && 0 <= j < pool@.len() && i != j implies pool@[i]
            != pool@[j] by {
            assert(pool@[i] == i && pool@[j] == j);
        }
    }
    let picks = draw_distinct(pool, 4);
    let foil_symbol = foil * 15 + random_below(15);
    let mut symbols: Vec<usize> = Vec::new();
    let mut i: usize = 0;
    while i < 4
        invariant
            main < CATEGORY_COUNT,
            foil < CATEGORY_COUNT,
            i <= 4,
            picks@.len() == 4,
            picks@.no_duplicates(),
            forall|k: int| 0 <= k < 4 ==> #[trigger] picks@[k] < 15,
            symbols@.len() == i,
            forall|k: int| 0 <= k < i ==> #[trigger] symbols@[k] == main * 15 + picks@[k],
        decreases 4 - i,
    {
        symbols.push(main * 15 + picks[i] as usize);
        i = i + 1;
    }
    symbols.push(foil_symbol);
    let ghost before = symbols@;
    assert(before.no_duplicates()) by {
        assert forall|i: int, j: int|
            0 <= i < before.len() && 0 <= j < before.len() && i != j implies before[i]
            != before[j] by {
            if i < 4 && j < 4 {
                assert(picks@[i] != picks@[j]);
            }
        }
    }
    assert forall|x: usize| before.contains(x) implies x == foil_symbol || (x / 15 == main && x
        < SYMBOL_COUNT) by {
        let k = choose|k: int| 0 <= k < before.len() && before[k] == x;
        if k < 4 {
            assert(picks@[k] < 15);
        }
    }
    shuffle(&mut symbols);
    let ghost shuffled = symbols@;
    proof {
        before.lemma_multiset_has_no_duplicates();
        shuffled.lemma_multiset_has_no_duplicates_conv();
        assert(shuffled.to_multiset().len() == before.to_multiset().len());
        assert(before[4] == foil_symbol);
        assert(before.to_multiset().count(foil_symbol) > 0);
        assert(shuffled.to_multiset().count(foil_symbol) > 0);
        assert forall|k: int| 0 <= k < shuffled.len() implies #[trigger] shuffled[k]
            == foil_symbol || (shuffled[k] / 15 == main && shuffled[k] < SYMBOL_COUNT) by {
            assert(shuffled.contains(shuffled[k]));
            assert(shuffled.to_multiset().count(shuffled[k]) > 0);
            assert(before.contains(shuffled[k]));
        }
    }
    let mut labels: Vec<String> = Vec::new();
    let mut correct: usize = 0;
    let mut i: usize = 0;
    while i < symbols.len()
        invariant
            shuffled == symbols@,
            shuffled.len() == ANSWER_COUNT,
            foil_symbol < SYMBOL_COUNT,
            forall|k: int| 0 <= k < shuffled.len() ==> #[trigger] shuffled[k] < SYMBOL_COUNT,
            i <= shuffled.len(),
            labels@.len() == i,
            correct < ANSWER_COUNT,
            forall|k: int|
                0 <= k < i ==> (#[trigger] labels@[k])@ == symbol_text(shuffled[k] as int),
            (exists|k: int| 0 <= k < i && shuffled[k] == foil_symbol) ==> shuffled[correct as int]
                == foil_symbol,
        decreases shuffled.len() - i,
    {
        labels.push(symbol_string(symbols[i]));
        if symbols[i] == foil_symbol {
            correct = i;
        }
        i = i + 1;
    }
    assert(shuffled[correct as int] == foil_symbol) by {
        let k = choose|k: int| 0 <= k < shuffled.len() && shuffled[k] == foil_symbol;
    }
    let tokens = assign_tokens(ANSWER_COUNT);
    let laid = lay_out(&labels, &tokens, correct);
    let prompt = category_prompt_string(main);
    let r = (prompt, laid.0, laid.1);
    proof {
        assert forall|i: int, j: int|
            0 <= i < 5 && 0 <= j < 5 && i != j implies (#[trigger] r.2@[i]).0@ != (
            #[trigger] r.2@[j]).0@ by {
            lemma_symbol_text_injective(shuffled[i] as int, shuffled[j] as int);
        }
        assert forall|i: int| 0 <= i < 5 implies is_category_answer(
            #[trigger] r.2@[i],
            r.1@,
            main as int,
            foil as int,
        ) by {
            let s = shuffled[i] as int;
            assert(r.2@[i].0@ == symbol_text(s));
            assert(r.2@[i].1@ == r.1@ <==> i == correct);
        }
        assert forall|i: int, k: int|
            0 <= i < 5 && 0 <= k < SYMBOLS_PER_CATEGORY && (#[trigger] r.2@[i]).1@ == r.1@
                implies r.2@[i].0@ != #[trigger] symbol_text(main * SYMBOLS_PER_CATEGORY + k) by {
            assert(i == correct);
            lemma_symbol_text_injective(foil_symbol as int, main * SYMBOLS_PER_CATEGORY + k);
        }
        assert(r.2@[correct as int].1@ == r.1@);
    }
    r
}

/// A category puzzle whose main and foil categories are drawn uniformly and
/// distinct from each other.
pub fn generate_category_challenge() -> (r: Puzzle)
    ensures
        well_formed_puzzle(r),
        exists|main: int, foil: int|
            is_category_puzzle(r, main, foil) && correct_outside_category(r, main),
{
    let main = random_below(CATEGORY_COUNT);
    let mut foil = random_below(CATEGORY_COUNT - 1);
    if foil >= main {
        foil = foil + 1;
    }
    category_challenge_for(main, foil)
}

/// In every well-formed puzzle, and so in every generated one, exactly one
/// answer carries the correct token.
pub proof fn lemma_one_correct_answer(p: Puzzle)
    requires
        well_formed_puzzle(p),
    ensures
        exists|i: int|
            0 <= i < ANSWER_COUNT && (#[trigger] p.2@[i]).1@ == p.1@ && forall|j: int|
                0 <= j < ANSWER_COUNT && (#[trigger] p.2@[j]).1@ == p.1@ ==> j == i,
{
    let i = choose|i: int| 0 <= i < p.2@.len() && (#[trigger] p.2@[i]).1@ == p.1@;
    assert forall|j: int| 0 <= j < ANSWER_COUNT && (#[trigger] p.2@[j]).1@ == p.1@ implies j == i by {
        if j != i {
            assert(p.2@[i].1@ != p.2@[j].1@);
        }
    }
}

}
