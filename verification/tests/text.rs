use regreet::text::char_is_whitespace;
use regreet::text::chars_of;
use regreet::text::clone_strings;
use regreet::text::concat_strings;
use regreet::text::digit_of;
use regreet::text::find;
use regreet::text::has_prefix;
use regreet::text::next_line;
use regreet::text::parse_radix_in;
use regreet::text::str_eq;
use regreet::text::trim_bounds;

fn trim(text: &str) -> String {
    let chars = chars_of(text);
    let (a, b) = trim_bounds(&chars, 0, chars.len());
    chars[a..b].iter().collect()
}

fn lines(text: &str) -> Vec<String> {
    let chars = chars_of(text);
    let mut lines = Vec::new();
    let mut pos = 0;
    while pos < chars.len() {
        let (end, next) = next_line(&chars, pos);
        lines.push(chars[pos..end].iter().collect());
        pos = next;
    }
    lines
}

fn parse(text: &str, radix: u32) -> Option<u64> {
    let chars = chars_of(text);
    parse_radix_in(&chars, 0, chars.len(), radix)
}

#[test]
fn chars_of_gives_every_character() {
    assert_eq!(chars_of(""), Vec::<char>::new());
    assert_eq!(chars_of("aä越"), vec!['a', 'ä', '越']);
}

#[test]
fn whitespace_is_what_std_says_for_every_character() {
    for code in 0..=0x10FFFFu32 {
        if let Some(c) = char::from_u32(code) {
            assert_eq!(char_is_whitespace(c), c.is_whitespace(), "U+{code:04X}");
        }
    }
}

#[test]
fn trim_is_what_std_does() {
    for text in [
        "",
        " ",
        "a",
        "  a b  ",
        "\t\n a\u{A0}",
        "\u{3000}x\u{2003}",
        " \r\n",
        "x  ",
        "  x",
        "é è",
    ] {
        assert_eq!(trim(text), text.trim(), "{text:?}");
    }
    let chars = chars_of("ab  cd  ef");
    assert_eq!(trim_bounds(&chars, 2, 8), (4, 6));
    assert_eq!(trim_bounds(&chars, 2, 4), (4, 4));
}

#[test]
fn lines_are_what_std_gives() {
    for text in [
        "",
        "a",
        "a\n",
        "a\nb",
        "a\r\nb\r\n",
        "\n",
        "\n\n",
        "a\n\nb",
        "a\r",
        "a\rb\n",
        "\r\n",
        "a\r\r\n",
        "x\n\r",
    ] {
        let expected: Vec<String> = text.lines().map(|l| l.to_string()).collect();
        assert_eq!(lines(text), expected, "{text:?}");
    }
}

#[test]
fn find_gives_the_first_place() {
    let chars = chars_of("a,b,c");
    assert_eq!(find(&chars, 0, 5, ','), 1);
    assert_eq!(find(&chars, 2, 5, ','), 3);
    assert_eq!(find(&chars, 4, 5, ','), 5);
    assert_eq!(find(&chars, 0, 1, ','), 1);
    assert_eq!(find(&chars, 0, 5, 'x'), 5);
}

#[test]
fn prefix_is_found_only_at_the_beginning() {
    let chars = chars_of("UID_MIN 5");
    assert!(has_prefix(&chars, 0, 9, &chars_of("UID_MIN")));
    assert!(has_prefix(&chars, 0, 9, &chars_of("")));
    assert!(!has_prefix(&chars, 0, 9, &chars_of("UID_MAX")));
    assert!(!has_prefix(&chars, 1, 9, &chars_of("UID_MIN")));
    assert!(!has_prefix(&chars, 0, 6, &chars_of("UID_MIN")));
    assert!(has_prefix(&chars, 4, 9, &chars_of("MIN")));
}

#[test]
fn digits_have_their_values() {
    assert_eq!(digit_of('0', 10), Some(0));
    assert_eq!(digit_of('9', 10), Some(9));
    assert_eq!(digit_of('8', 8), None);
    assert_eq!(digit_of('a', 16), Some(10));
    assert_eq!(digit_of('F', 16), Some(15));
    assert_eq!(digit_of('g', 16), None);
    assert_eq!(digit_of('z', 36), Some(35));
    assert_eq!(digit_of('/', 10), None);
    assert_eq!(digit_of(':', 10), None);
    for radix in [2u32, 8, 10, 16, 36] {
        for code in 0..0x250u32 {
            if let Some(c) = char::from_u32(code) {
                assert_eq!(digit_of(c, radix), c.to_digit(radix), "{c:?} in {radix}");
            }
        }
    }
}

#[test]
fn numbers_are_read_as_std_reads_them() {
    for radix in [8u32, 10, 16] {
        for text in [
            "",
            "0",
            "7",
            "10",
            "0777",
            "+12",
            "+",
            "-",
            "-1",
            "++1",
            "1+",
            " 1",
            "1 ",
            "1_000",
            "DeadBeef",
            "deadbeef",
            "18446744073709551615",
            "18446744073709551616",
            "99999999999999999999999",
            "ffffffffffffffff",
            "10000000000000000",
            "1777777777777777777777",
            "2000000000000000000000",
            "x",
            "12é",
            "٣",
        ] {
            assert_eq!(parse(text, radix), u64::from_str_radix(text, radix).ok(), "{text:?} in {radix}");
        }
    }
    let chars = chars_of("ab12cd");
    assert_eq!(parse_radix_in(&chars, 2, 4, 10), Some(12));
    assert_eq!(parse_radix_in(&chars, 2, 2, 10), None);
    assert_eq!(parse_radix_in(&chars, 0, 6, 16), Some(0xab12cd));
}

#[test]
fn strings_compare_by_their_text() {
    assert!(str_eq("", ""));
    assert!(str_eq("true", "true"));
    assert!(!str_eq("true", "True"));
    assert!(!str_eq("true", "true "));
}

#[test]
fn strings_are_copied_in_order() {
    let first = vec!["a".to_string(), "b".to_string()];
    let second = vec!["c".to_string()];
    assert_eq!(clone_strings(&first), first);
    assert_eq!(concat_strings(&first, &second), vec!["a", "b", "c"]);
    assert_eq!(concat_strings(&vec![], &second), vec!["c"]);
    assert_eq!(concat_strings(&first, &vec![]), vec!["a", "b"]);
}
