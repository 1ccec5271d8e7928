use guessing_game::input::{char_digit, char_is_whitespace, parse_guess};

fn std_parse(line: &str) -> Option<u32> {
    line.trim().parse::<u32>().ok()
}

#[test]
fn plain_numbers_are_guesses() {
    assert_eq!(parse_guess("0"), Some(0));
    assert_eq!(parse_guess("1"), Some(1));
    assert_eq!(parse_guess("42"), Some(42));
    assert_eq!(parse_guess("100"), Some(100));
    assert_eq!(parse_guess("101"), Some(101));
    assert_eq!(parse_guess("65536"), Some(65536));
}

#[test]
fn line_ends_and_blanks_around_a_guess_are_passed_over() {
    assert_eq!(parse_guess("42\n"), Some(42));
    assert_eq!(parse_guess("42\r\n"), Some(42));
    assert_eq!(parse_guess("  42"), Some(42));
    assert_eq!(parse_guess("42  "), Some(42));
    assert_eq!(parse_guess("\t 42 \t\n"), Some(42));
    assert_eq!(parse_guess("\u{a0}42\u{3000}"), Some(42));
    assert_eq!(parse_guess("\u{2003}7\u{2028}\u{85}"), Some(7));
}

#[test]
fn a_plus_sign_may_lead() {
    assert_eq!(parse_guess("+5"), Some(5));
    assert_eq!(parse_guess(" +5\n"), Some(5));
    assert_eq!(parse_guess("+0"), Some(0));
}

#[test]
fn leading_zeros_do_not_count() {
    assert_eq!(parse_guess("007"), Some(7));
    assert_eq!(parse_guess("0000000000000000000000042"), Some(42));
    assert_eq!(parse_guess("+000"), Some(0));
}

#[test]
fn the_largest_guess_is_u32_max() {
    assert_eq!(parse_guess("4294967295"), Some(u32::MAX));
    assert_eq!(parse_guess("4294967296"), None);
    assert_eq!(parse_guess("4294967300"), None);
    assert_eq!(parse_guess("42949672950"), None);
    assert_eq!(parse_guess("99999999999999999999999999"), None);
    assert_eq!(parse_guess("00004294967295"), Some(u32::MAX));
}

#[test]
fn empty_and_blank_lines_are_malformed() {
    assert_eq!(parse_guess(""), None);
    assert_eq!(parse_guess("\n"), None);
    assert_eq!(parse_guess("   "), None);
    assert_eq!(parse_guess(" \t\r\n"), None);
}

#[test]
fn words_fractions_and_negatives_are_malformed() {
    assert_eq!(parse_guess("abc"), None);
    assert_eq!(parse_guess("3.5"), None);
    assert_eq!(parse_guess("-5"), None);
    assert_eq!(parse_guess("-0"), None);
    assert_eq!(parse_guess("12a"), None);
    assert_eq!(parse_guess("a12"), None);
    assert_eq!(parse_guess("1_000"), None);
    assert_eq!(parse_guess("0x10"), None);
    assert_eq!(parse_guess("1e3"), None);
}

#[test]
fn a_sign_needs_digits_right_behind_it() {
    assert_eq!(parse_guess("+"), None);
    assert_eq!(parse_guess("+ "), None);
    assert_eq!(parse_guess(" + "), None);
    assert_eq!(parse_guess("+ 5"), None);
    assert_eq!(parse_guess("++5"), None);
    assert_eq!(parse_guess("+-5"), None);
    assert_eq!(parse_guess("5+"), None);
}

#[test]
fn blanks_inside_a_number_are_malformed() {
    assert_eq!(parse_guess("4 2"), None);
    assert_eq!(parse_guess("4\t2\n"), None);
    assert_eq!(parse_guess("42 x"), None);
    assert_eq!(parse_guess("42 \n 7"), None);
}

#[test]
fn digits_of_other_scripts_are_malformed() {
    assert_eq!(parse_guess("\u{661}\u{662}"), None);
    assert_eq!(parse_guess("\u{ff14}\u{ff12}"), None);
}

#[test]
fn characters_that_only_look_blank_are_malformed() {
    assert_eq!(parse_guess("\u{200b}42"), None);
    assert_eq!(parse_guess("42\u{feff}"), None);
    assert_eq!(parse_guess("\u{180e}42"), None);
}

#[test]
fn parsing_agrees_with_trim_and_parse_of_std() {
    let lines: Vec<&str> = vec![
        "", " ", "\n", "0", "1", "42", "100", "101", "4294967295", "4294967296", "+1", "-1", "+",
        "-", "++1", "+-1", " 42 ", "\t42\n", "42\r\n", "4 2", "abc", "3.5", "12a", "a12", "１２",
        "\u{a0}9\u{a0}", "\u{1680}9", "9\u{2000}", "9\u{200a}", "9\u{200b}", "\u{2028}9\u{2029}",
        "\u{202f}9\u{205f}", "\u{3000}9", "\u{85}9", "\u{b}9\u{c}", "\u{1c}9", "\u{1f}9",
        "00000000000000000000000000000000000000001", "99999999999", "+4294967295", "+4294967296",
        " + 1", "1 +", "١٢", "9\u{0}", "\u{0}9", "4294967295 ", " 4294967295", "429496729 5",
    ];
    for line in lines {
        assert_eq!(parse_guess(line), std_parse(line), "line {:?}", line);
    }
}

#[test]
fn every_number_up_to_a_thousand_reads_back() {
    for n in 0..=1000u32 {
        assert_eq!(parse_guess(&format!("{}", n)), Some(n));
        assert_eq!(parse_guess(&format!("  +{}\n", n)), Some(n));
    }
}

#[test]
fn numbers_around_the_limit_agree_with_std() {
    for n in 4294967200u64..4294967400u64 {
        let line: String = format!("{}\n", n);
        assert_eq!(parse_guess(&line), std_parse(&line));
    }
}

#[test]
fn white_space_is_what_std_calls_white_space() {
    for code in 0..=0x10ffffu32 {
        if let Some(c) = char::from_u32(code) {
            assert_eq!(char_is_whitespace(c), c.is_whitespace(), "U+{:04X}", code);
        }
    }
}

#[test]
fn digits_are_the_ten_ascii_digits() {
    for code in 0..=0x10ffffu32 {
        if let Some(c) = char::from_u32(code) {
            let expected: Option<u32> = if c.is_ascii_digit() { c.to_digit(10) } else { None };
            assert_eq!(char_digit(c), expected, "U+{:04X}", code);
        }
    }
    assert_eq!(char_digit('0'), Some(0));
    assert_eq!(char_digit('7'), Some(7));
    assert_eq!(char_digit('9'), Some(9));
    assert_eq!(char_digit('a'), None);
}

#[test]
fn lines_made_up_at_random_agree_with_std() {
    let alphabet: Vec<char> = vec![
        ' ', '\t', '\n', '\r', '+', '-', '0', '1', '2', '4', '9', 'a', '.', '_', '\u{a0}',
        '\u{2009}', '\u{3000}', '\u{200b}', '\u{0}',
    ];
    let mut state: u64 = 0x2545f4914f6cdd1d;
    let mut some_seen: u32 = 0;
    let mut none_seen: u32 = 0;
    for _ in 0..200000 {
        let mut line: String = String::new();
        state ^= state << 13;
        state ^= state >> 7;
        state ^= state << 17;
        let length: u64 = state % 13;
        for _ in 0..length {
            state ^= state << 13;
            state ^= state >> 7;
            state ^= state << 17;
            let pick: usize = (state % 40) as usize;
            // Digits and blanks come more often than the rest, so that many
            // lines are well formed.
            let c: char = if pick < alphabet.len() {
                alphabet[pick]
            } else if pick < 34 {
                alphabet[6 + pick % 5]
            } else {
                ' '
            };
            line.push(c);
        }
        let guess: Option<u32> = parse_guess(&line);
        assert_eq!(guess, std_parse(&line), "line {:?}", line);
        if guess.is_some() {
            some_seen += 1;
        } else {
            none_seen += 1;
        }
    }
    assert!(some_seen > 1000, "only {} well-formed lines", some_seen);
    assert!(none_seen > 1000, "only {} malformed lines", none_seen);
}
