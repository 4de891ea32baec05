use calc_service::numeral::to_decimal;
use calc_service::text::{chars_of, replace_all, write_list};

#[test]
fn replace_all_replaces_every_occurrence() {
    assert_eq!(replace_all("a%20b%20c", "%20", ""), "abc");
    assert_eq!(replace_all("x%5E2+x%5E3", "%5E", "^"), "x^2+x^3");
    assert_eq!(replace_all("1divx", "div", "/"), "1/x");
}

#[test]
fn replace_all_agrees_with_std() {
    let texts = ["", "a", "aaa", "aaaa", "abab", "xdivdivx", "ddd", "%5%5E", "héllo wörld", "日本語"];
    let patterns = ["a", "aa", "ab", "div", "d", "%5E", "", "é", "本"];
    let replacements = ["", "/", "^", "xyz", "aa"];
    for text in texts {
        for pattern in patterns {
            for replacement in replacements {
                assert_eq!(
                    replace_all(text, pattern, replacement),
                    text.replace(pattern, replacement),
                    "text {:?}, pattern {:?}, replacement {:?}",
                    text,
                    pattern,
                    replacement
                );
            }
        }
    }
}

#[test]
fn replace_all_does_not_look_back_into_what_it_wrote() {
    assert_eq!(replace_all("aaa", "aa", "a"), "aa");
    assert_eq!(replace_all("abc", "b", "bb"), "abbc");
}

#[test]
fn replace_all_with_empty_pattern_puts_replacement_around_every_character() {
    assert_eq!(replace_all("abc", "", "-"), "-a-b-c-");
    assert_eq!(replace_all("", "", "-"), "-");
}

#[test]
fn chars_of_gives_the_characters_in_order() {
    assert_eq!(chars_of("x^2"), vec!['x', '^', '2']);
    assert_eq!(chars_of("é本"), vec!['é', '本']);
    assert_eq!(chars_of(""), Vec::<char>::new());
}

#[test]
fn to_decimal_writes_numbers_as_display_does() {
    assert_eq!(to_decimal(0), "0");
    assert_eq!(to_decimal(7), "7");
    assert_eq!(to_decimal(10), "10");
    assert_eq!(to_decimal(407), "407");
    assert_eq!(to_decimal(1024), "1024");
    assert_eq!(to_decimal(u64::MAX), "18446744073709551615");
    for n in [1u64, 9, 11, 99, 100, 101, 65536, 1_000_000_007] {
        assert_eq!(to_decimal(n), format!("{}", n));
    }
}

#[test]
fn decimal_numeral_reads_back_as_the_number() {
    for n in [0u64, 1, 9, 10, 19, 100, 4096, 999_999, u64::MAX - 1, u64::MAX] {
        let text = to_decimal(n);
        assert_eq!(text.parse::<u64>(), Ok(n));
        assert!(text == "0" || !text.starts_with('0'));
    }
}

#[test]
fn write_list_shows_items_as_debug_shows_a_vector() {
    assert_eq!(write_list(&vec![]), "[]");
    assert_eq!(write_list(&vec!["1.0".to_string()]), "[1.0]");
    assert_eq!(
        write_list(&vec!["1.0".to_string(), "2.5".to_string(), "-3.0".to_string()]),
        "[1.0, 2.5, -3.0]"
    );
    let values = vec![1.0f64, 0.5, -2.25, 1e-12];
    let items: Vec<String> = values.iter().map(|v| format!("{:?}", v)).collect();
    assert_eq!(write_list(&items), format!("{:?}", values));
}
