use backend::text::{chars_of, push_decimal, split_and_trim, white_space};

#[test]
fn white_space_matches_std_for_every_char() {
    for u in 0u32..=0x10FFFF {
        if let Some(c) = char::from_u32(u) {
            assert_eq!(white_space(c), c.is_whitespace(), "U+{:04X}", u);
        }
    }
}

#[test]
fn decimal_numerals_match_std() {
    for n in [0u64, 7, 9, 10, 11, 99, 100, 1_000, 65_536, 1_234_567_890, u64::MAX - 1, u64::MAX] {
        let mut s = "x=".to_string();
        push_decimal(&mut s, n);
        assert_eq!(s, format!("x={}", n));
    }
}

#[test]
fn chars_of_and_split() {
    assert_eq!(chars_of("añb"), vec!['a', 'ñ', 'b']);
    assert_eq!(split_and_trim(" a | b|", '|'), vec!["a", "b", ""]);
    assert_eq!(split_and_trim("no separator", '|'), vec!["no separator"]);
}
