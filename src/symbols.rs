//! The fixed catalogue of symbols that the puzzles are drawn from: eight
//! categories of fifteen emoji each, and the keycap digits.
//!
//! A catalogue symbol is named by its index `s < SYMBOL_COUNT`; it belongs to
//! category `s / SYMBOLS_PER_CATEGORY`. Its text is one code point, optionally
//! followed by the emoji variation selector U+FE0F.
use vstd::prelude::*;

use crate::text::char_text;

verus! {

/// Number of categories in the catalogue.
pub const CATEGORY_COUNT: usize = 8;

/// Number of symbols in each category.
pub const SYMBOLS_PER_CATEGORY: usize = 15;

/// Number of symbols in the whole catalogue.
pub const SYMBOL_COUNT: usize = 120;

/// The category that catalogue symbol `s` belongs to.
pub open spec fn category_of(s: int) -> int {
    s / SYMBOLS_PER_CATEGORY as int
}

/// The leading code point of catalogue symbol `s`.
pub open spec fn symbol_char(s: int) -> char {

    if s == 0 {
        '🐕'
    } else if s == 1 {
        '🐱'
    } else if s == 2 {
        '🐰'
    } else if s == 3 {
        '🐸'
    } else if s == 4 {
        '🦊'
    } else if s == 5 {
        '🐼'
    } else if s == 6 {
        '🐨'
    } else if s == 7 {
        '🦁'
    } else if s == 8 {
        '🐵'
    } else if s == 9 {
        '🐮'
    } else if s == 10 {
        '🐷'
    } else if s == 11 {
        '🐯'
    } else if s == 12 {
        '🦒'
    } else if s == 13 {
        '🐘'
    } else if s == 14 {
        '🦓'
    } else if s == 15 {
        '🍕'
    } else if s == 16 {
        '🍔'
    } else if s == 17 {
        '🍎'
    } else if s == 18 {
        '🍌'
    } else if s == 19 {
        '🍇'
    } else if s == 20 {
        '🥕'
    } else if s == 21 {
        '🍅'
    } else if s == 22 {
        '🥐'
    } else if s == 23 {
        '🧀'
    } else if s == 24 {
        '🥓'
    } else if s == 25 {
        '🍗'
    } else if s == 26 {
        '🍰'
    } else if s == 27 {
        '🍪'
    } else if s == 28 {
        '🍫'
    } else if s == 29 {
        '🥗'
    } else if s == 30 {
        '⚽'
    } else if s == 31 {
        '🏀'
    } else if s == 32 {
        '🎾'
    } else if s == 33 {
        '🏈'
    } else if s == 34 {
        '⚾'
    } else if s == 35 {
        '🏐'
    } else if s == 36 {
        '🏓'
    } else if s == 37 {
        '🏸'
    } else if s == 38 {
        '🥊'
    } else if s == 39 {
        '🎱'
    } else if s == 40 {
        '🎯'
    } else if s == 41 {
        '🏹'
    } else if s == 42 {
        '⛳'
    } else if s == 43 {
        '🥅'
    } else if s == 44 {
        '🏆'
    } else if s == 45 {
        '🚗'
    } else if s == 46 {
        '🚕'
    } else if s == 47 {
        '🚙'
    } else if s == 48 {
        '🚐'
    } else if s == 49 {
        '🚛'
    } else if s == 50 {
        '🚌'
    } else if s == 51 {
        '🚎'
    } else if s == 52 {
        '🏎'
    } else if s == 53 {
        '🚓'
    } else if s == 54 {
        '🚑'
    } else if s == 55 {
        '🚒'
    } else if s == 56 {
        '🚚'
    } else if s == 57 {
        '🛻'
    } else if s == 58 {
        '🏍'
    } else if s == 59 {
        '🚲'
    } else if s == 60 {
        '☀'
    } else if s == 61 {
        '🌙'
    } else if s == 62 {
        '⭐'
    } else if s == 63 {
        '☁'
    } else if s == 64 {
        '⛅'
    } else if s == 65 {
        '🌧'
    } else if s == 66 {
        '⛈'
    } else if s == 67 {
        '🌩'
    } else if s == 68 {
        '❄'
    } else if s == 69 {
        '🌨'
    } else if s == 70 {
        '🌪'
    } else if s == 71 {
        '🌈'
    } else if s == 72 {
        '⚡'
    } else if s == 73 {
        '🔥'
    } else if s == 74 {
        '💧'
    } else if s == 75 {
        '🔨'
    } else if s == 76 {
        '🔧'
    } else if s == 77 {
        '🪚'
    } else if s == 78 {
        '⚒'
    } else if s == 79 {
        '🛠'
    } else if s == 80 {
        '⛏'
    } else if s == 81 {
        '🪓'
    } else if s == 82 {
        '🔩'
    } else if s == 83 {
        '⚙'
    } else if s == 84 {
        '🪛'
    } else if s == 85 {
        '📏'
    } else if s == 86 {
        '📐'
    } else if s == 87 {
        '✂'
    } else if s == 88 {
        '🔪'
    } else if s == 89 {
        '✏'
    } else if s == 90 {
        '🌳'
    } else if s == 91 {
        '🌲'
    } else if s == 92 {
        '🌴'
    } else if s == 93 {
        '🌵'
    } else if s == 94 {
        '🌿'
    } else if s == 95 {
        '🍀'
    } else if s == 96 {
        '🌺'
    } else if s == 97 {
        '🌸'
    } else if s == 98 {
        '🌼'
    } else if s == 99 {
        '🌻'
    } else if s == 100 {
        '🌷'
    } else if s == 101 {
        '🥀'
    } else if s == 102 {
        '💐'
    } else if s == 103 {
        '🌱'
    } else if s == 104 {
        '🌾'
    } else if s == 105 {
        '🏠'
    } else if s == 106 {
        '🏡'
    } else if s == 107 {
        '🏢'
    } else if s == 108 {
        '🏣'
    } else if s == 109 {
        '🏤'
    } else if s == 110 {
        '🏥'
    } else if s == 111 {
        '🏦'
    } else if s == 112 {
        '🏨'
    } else if s == 113 {
        '🏩'
    } else if s == 114 {
        '🏪'
    } else if s == 115 {
        '🏫'
    } else if s == 116 {
        '🏬'
    } else if s == 117 {
        '🏭'
    } else if s == 118 {
        '🏯'
    } else if s == 119 {
        '🏰'
    } else {
        ' '
    }
}

/// Whether catalogue symbol `s` is written with the variation selector U+FE0F.
pub open spec fn symbol_has_selector(s: int) -> bool {
    s == 52 || s == 58 || s == 60 || s == 63 || s == 65 || s == 66 || s == 67 || s == 68 || s == 69 || s == 70 || s == 78 || s == 79 || s == 80 || s == 83 || s == 87 || s == 89
}

/// The text of catalogue symbol `s`.
pub open spec fn symbol_text(s: int) -> Seq<char> {
    if symbol_has_selector(s) {
        seq![symbol_char(s), '\u{FE0F}']
    } else {
        seq![symbol_char(s)]
    }
}

/// The index of the catalogue symbol whose leading code point is `c`, or -1.
pub open spec fn symbol_index_of(c: char) -> int {

    if c == '🐕' {
        0
    } else if c == '🐱' {
        1
    } else if c == '🐰' {
        2
    } else if c == '🐸' {
        3
    } else if c == '🦊' {
        4
    } else if c == '🐼' {
        5
    } else if c == '🐨' {
        6
    } else if c == '🦁' {
        7
    } else if c == '🐵' {
        8
    } else if c == '🐮' {
        9
    } else if c == '🐷' {
        10
    } else if c == '🐯' {
        11
    } else if c == '🦒' {
        12
    } else if c == '🐘' {
        13
    } else if c == '🦓' {
        14
    } else if c == '🍕' {
        15
    } else if c == '🍔' {
        16
    } else if c == '🍎' {
        17
    } else if c == '🍌' {
        18
    } else if c == '🍇' {
        19
    } else if c == '🥕' {
        20
    } else if c == '🍅' {
        21
    } else if c == '🥐' {
        22
    } else if c == '🧀' {
        23
    } else if c == '🥓' {
        24
    } else if c == '🍗' {
        25
    } else if c == '🍰' {
        26
    } else if c == '🍪' {
        27
    } else if c == '🍫' {
        28
    } else if c == '🥗' {
        29
    } else if c == '⚽' {
        30
    } else if c == '🏀' {
        31
    } else if c == '🎾' {
        32
    } else if c == '🏈' {
        33
    } else if c == '⚾' {
        34
    } else if c == '🏐' {
        35
    } else if c == '🏓' {
        36
    } else if c == '🏸' {
        37
    } else if c == '🥊' {
        38
    } else if c == '🎱' {
        39
    } else if c == '🎯' {
        40
    } else if c == '🏹' {
        41
    } else if c == '⛳' {
        42
    } else if c == '🥅' {
        43
    } else if c == '🏆' {
        44
    } else if c == '🚗' {
        45
    } else if c == '🚕' {
        46
    } else if c == '🚙' {
        47
    } else if c == '🚐' {
        48
    } else if c == '🚛' {
        49
    } else if c == '🚌' {
        50
    } else if c == '🚎' {
        51
    } else if c == '🏎' {
        52
    } else if c == '🚓' {
        53
    } else if c == '🚑' {
        54
    } else if c == '🚒' {
        55
    } else if c == '🚚' {
        56
    } else if c == '🛻' {
        57
    } else if c == '🏍' {
        58
    } else if c == '🚲' {
        59
    } else if c == '☀' {
        60
    } else if c == '🌙' {
        61
    } else if c == '⭐' {
        62
    } else if c == '☁' {
        63
    } else if c == '⛅' {
        64
    } else if c == '🌧' {
        65
    } else if c == '⛈' {
        66
    } else if c == '🌩' {
        67
    } else if c == '❄' {
        68
    } else if c == '🌨' {
        69
    } else if c == '🌪' {
        70
    } else if c == '🌈' {
        71
    } else if c == '⚡' {
        72
    } else if c == '🔥' {
        73
    } else if c == '💧' {
        74
    } else if c == '🔨' {
        75
    } else if c == '🔧' {
        76
    } else if c == '🪚' {
        77
    } else if c == '⚒' {
        78
    } else if c == '🛠' {
        79
    } else if c == '⛏' {
        80
    } else if c == '🪓' {
        81
    } else if c == '🔩' {
        82
    } else if c == '⚙' {
        83
    } else if c == '🪛' {
        84
    } else if c == '📏' {
        85
    } else if c == '📐' {
        86
    } else if c == '✂' {
        87
    } else if c == '🔪' {
        88
    } else if c == '✏' {
        89
    } else if c == '🌳' {
        90
    } else if c == '🌲' {
        91
    } else if c == '🌴' {
        92
    } else if c == '🌵' {
        93
    } else if c == '🌿' {
        94
    } else if c == '🍀' {
        95
    } else if c == '🌺' {
        96
    } else if c == '🌸' {
        97
    } else if c == '🌼' {
        98
    } else if c == '🌻' {
        99
    } else if c == '🌷' {
        100
    } else if c == '🥀' {
        101
    } else if c == '💐' {
        102
    } else if c == '🌱' {
        103
    } else if c == '🌾' {
        104
    } else if c == '🏠' {
        105
    } else if c == '🏡' {
        106
    } else if c == '🏢' {
        107
    } else if c == '🏣' {
        108
    } else if c == '🏤' {
        109
    } else if c == '🏥' {
        110
    } else if c == '🏦' {
        111
    } else if c == '🏨' {
        112
    } else if c == '🏩' {
        113
    } else if c == '🏪' {
        114
    } else if c == '🏫' {
        115
    } else if c == '🏬' {
        116
    } else if c == '🏭' {
        117
    } else if c == '🏯' {
        118
    } else if c == '🏰' {
        119
    } else {
        -1
    }
}


/// Each catalogue symbol is recovered from its leading code point.
pub proof fn lemma_symbol_index_of(s: int)
    requires
        0 <= s < SYMBOL_COUNT,
    ensures
        symbol_index_of(symbol_char(s)) == s,
{
}

/// Distinct catalogue symbols have distinct texts.
pub proof fn lemma_symbol_text_injective(s: int, t: int)
    requires
        0 <= s < SYMBOL_COUNT,
        0 <= t < SYMBOL_COUNT,
        s != t,
    ensures
        symbol_text(s) != symbol_text(t),
{
    lemma_symbol_index_of(s);
    lemma_symbol_index_of(t);
    assert(symbol_text(s)[0] == symbol_char(s));
    assert(symbol_text(t)[0] == symbol_char(t));
}

/// Leading code point of catalogue symbol `s`.
fn symbol_char_exec(s: usize) -> (r: char)
    requires
        s < SYMBOL_COUNT,
    ensures
        r == symbol_char(s as int),
{
    match s {

        0 => '🐕',
        1 => '🐱',
        2 => '🐰',
        3 => '🐸',
        4 => '🦊',
        5 => '🐼',
        6 => '🐨',
        7 => '🦁',
        8 => '🐵',
        9 => '🐮',
        10 => '🐷',
        11 => '🐯',
        12 => '🦒',
        13 => '🐘',
        14 => '🦓',
        15 => '🍕',
        16 => '🍔',
        17 => '🍎',
        18 => '🍌',
        19 => '🍇',
        20 => '🥕',
        21 => '🍅',
        22 => '🥐',
        23 => '🧀',
        24 => '🥓',
        25 => '🍗',
        26 => '🍰',
        27 => '🍪',
        28 => '🍫',
        29 => '🥗',
        30 => '⚽',
        31 => '🏀',
        32 => '🎾',
        33 => '🏈',
        34 => '⚾',
        35 => '🏐',
        36 => '🏓',
        37 => '🏸',
        38 => '🥊',
        39 => '🎱',
        40 => '🎯',
        41 => '🏹',
        42 => '⛳',
        43 => '🥅',
        44 => '🏆',
        45 => '🚗',
        46 => '🚕',
        47 => '🚙',
        48 => '🚐',
        49 => '🚛',
        50 => '🚌',
        51 => '🚎',
        52 => '🏎',
        53 => '🚓',
        54 => '🚑',
        55 => '🚒',
        56 => '🚚',
        57 => '🛻',
        58 => '🏍',
        59 => '🚲',
        60 => '☀',
        61 => '🌙',
        62 => '⭐',
        63 => '☁',
        64 => '⛅',
        65 => '🌧',
        66 => '⛈',
        67 => '🌩',
        68 => '❄',
        69 => '🌨',
        70 => '🌪',
        71 => '🌈',
        72 => '⚡',
        73 => '🔥',
        74 => '💧',
        75 => '🔨',
        76 => '🔧',
        77 => '🪚',
        78 => '⚒',
        79 => '🛠',
        80 => '⛏',
        81 => '🪓',
        82 => '🔩',
        83 => '⚙',
        84 => '🪛',
        85 => '📏',
        86 => '📐',
        87 => '✂',
        88 => '🔪',
        89 => '✏',
        90 => '🌳',
        91 => '🌲',
        92 => '🌴',
        93 => '🌵',
        94 => '🌿',
        95 => '🍀',
        96 => '🌺',
        97 => '🌸',
        98 => '🌼',
        99 => '🌻',
        100 => '🌷',
        101 => '🥀',
        102 => '💐',
        103 => '🌱',
        104 => '🌾',
        105 => '🏠',
        106 => '🏡',
        107 => '🏢',
        108 => '🏣',
        109 => '🏤',
        110 => '🏥',
        111 => '🏦',
        112 => '🏨',
        113 => '🏩',
        114 => '🏪',
        115 => '🏫',
        116 => '🏬',
        117 => '🏭',
        118 => '🏯',
        119 => '🏰',
        _ => ' ',
    }
}

/// The text of catalogue symbol `s`.
pub fn symbol_string(s: usize) -> (r: String)
    requires
        s < SYMBOL_COUNT,
    ensures
        r@ == symbol_text(s as int),
{
    let mut text = char_text(symbol_char_exec(s));
    if s == 52 || s == 58 || s == 60 || s == 63 || s == 65 || s == 66 || s == 67 || s == 68 || s == 69 || s == 70 || s == 78 || s == 79 || s == 80 || s == 83 || s == 87 || s == 89 {
        let selector = char_text('\u{FE0F}');
        text.append(selector.as_str());
    }
    text
}

/// The plural name of category `c`.
pub open spec fn category_name(c: int) -> Seq<char> {

    if c == 0 {
        "animales"@
    } else if c == 1 {
        "comida"@
    } else if c == 2 {
        "deportes"@
    } else if c == 3 {
        "vehículos"@
    } else if c == 4 {
        "fenómenos climáticos"@
    } else if c == 5 {
        "herramientas"@
    } else if c == 6 {
        "plantas"@
    } else if c == 7 {
        "edificios"@
    } else {
        Seq::empty()
    }
}

/// The singular label of category `c`, as the prompt writes it.
pub open spec fn category_singular(c: int) -> Seq<char> {

    if c == 0 {
        "un animal"@
    } else if c == 1 {
        "comida"@
    } else if c == 2 {
        "un deporte"@
    } else if c == 3 {
        "un vehículo"@
    } else if c == 4 {
        "un fenómeno climático"@
    } else if c == 5 {
        "una herramienta"@
    } else if c == 6 {
        "una planta"@
    } else if c == 7 {
        "un edificio"@
    } else {
        Seq::empty()
    }
}

/// The plural name of category `c`.
pub fn category_name_str(c: usize) -> (r: &'static str)
    requires
        c < CATEGORY_COUNT,
    ensures
        r@ == category_name(c as int),
{
    match c {

        0 => "animales",
        1 => "comida",
        2 => "deportes",
        3 => "vehículos",
        4 => "fenómenos climáticos",
        5 => "herramientas",
        6 => "plantas",
        7 => "edificios",
        _ => "",
    }
}

/// The singular label of category `c`.
pub fn category_singular_str(c: usize) -> (r: &'static str)
    requires
        c < CATEGORY_COUNT,
    ensures
        r@ == category_singular(c as int),
{
    match c {

        0 => "un animal",
        1 => "comida",
        2 => "un deporte",
        3 => "un vehículo",
        4 => "un fenómeno climático",
        5 => "una herramienta",
        6 => "una planta",
        7 => "un edificio",
        _ => "",
    }
}


/// The ASCII digit character for `d`.
pub open spec fn digit_char(d: int) -> char {
    if d == 0 {
        '0'
    } else if d == 1 {
        '1'
    } else if d == 2 {
        '2'
    } else if d == 3 {
        '3'
    } else if d == 4 {
        '4'
    } else if d == 5 {
        '5'
    } else if d == 6 {
        '6'
    } else if d == 7 {
        '7'
    } else if d == 8 {
        '8'
    } else if d == 9 {
        '9'
    } else {
        ' '
    }
}

/// The keycap emoji of digit `d`: the digit, U+FE0F and U+20E3.
pub open spec fn digit_symbol(d: int) -> Seq<char> {
    seq![digit_char(d), '\u{FE0F}', '\u{20E3}']
}

/// The ASCII digit character for `d`.
pub(crate) fn digit_char_exec(d: u8) -> (r: char)
    requires
        d <= 9,
    ensures
        r == digit_char(d as int),
{
    match d {
        0 => '0',
        1 => '1',
        2 => '2',
        3 => '3',
        4 => '4',
        5 => '5',
        6 => '6',
        7 => '7',
        8 => '8',
        9 => '9',
        _ => ' ',
    }
}

/// The keycap emoji of digit `d`.
pub fn digit_string(d: u8) -> (r: String)
    requires
        d <= 9,
    ensures
        r@ == digit_symbol(d as int),
{
    let mut text = char_text(digit_char_exec(d));
    let selector = char_text('\u{FE0F}');
    let keycap = char_text('\u{20E3}');
    text.append(selector.as_str());
    text.append(keycap.as_str());
    text
}

/// Distinct digits have distinct keycap emoji.
pub proof fn lemma_digit_symbol_injective(d: int, e: int)
    requires
        0 <= d <= 9,
        0 <= e <= 9,
        d != e,
    ensures
        digit_symbol(d) != digit_symbol(e),
{
    assert(digit_symbol(d)[0] == digit_char(d));
    assert(digit_symbol(e)[0] == digit_char(e));
}

/// A category of the catalogue: its plural name, the singular label that
/// prompts use, and the texts of its symbols.
pub struct Category {
    pub name: &'static str,
    pub singular_form: &'static str,
    pub emojis: Vec<String>,
}

/// Category `c` of the catalogue.
pub fn category(c: usize) -> (r: Category)
    requires
        c < CATEGORY_COUNT,
    ensures
        r.name@ == category_name(c as int),
        r.singular_form@ == category_singular(c as int),
        r.emojis@.len() == SYMBOLS_PER_CATEGORY,
        forall|k: int|
            0 <= k < SYMBOLS_PER_CATEGORY ==> (#[trigger] r.emojis@[k])@ == symbol_text(
                c * SYMBOLS_PER_CATEGORY + k,
            ),
{
    let mut emojis: Vec<String> = Vec::new();
    let mut k: usize = 0;
    while k < SYMBOLS_PER_CATEGORY
        invariant
            c < CATEGORY_COUNT,
            k <= SYMBOLS_PER_CATEGORY,
            emojis@.len() == k,
            forall|j: int|
                0 <= j < k ==> (#[trigger] emojis@[j])@ == symbol_text(c * SYMBOLS_PER_CATEGORY + j),
        decreases SYMBOLS_PER_CATEGORY - k,
    {
        emojis.push(symbol_string(c * SYMBOLS_PER_CATEGORY + k));
        k = k + 1;
    }
    Category { name: category_name_str(c), singular_form: category_singular_str(c), emojis }
}

}
