use html_entities::number::parse_digits;
use html_entities::{decode_html_entities, decode_with, DecodeError, Entities};

#[test]
fn by_name() {
    let html = "&amp;foobar&lt;&gt;";
    let expected = "&foobar<>";
    let decoded = decode_html_entities(html).unwrap();

    assert_eq!(decoded, expected);
}

#[test]
fn by_dec() {
    let html = "&#38;foobar&#60;&#62;";
    let expected = "&foobar<>";
    let decoded = decode_html_entities(html).unwrap();

    assert_eq!(decoded, expected);
}

#[test]
fn by_hex() {
    let html = "&#x00026;foobar&#x0003C;&#x0003E;";
    let expected = "&foobar<>";
    let decoded = decode_html_entities(html).unwrap();

    assert_eq!(decoded, expected);
}

#[test]
fn plain_text_is_unchanged() {
    for s in ["", "hello", "a;b#c\nd\te", "héllo wörld ✓", ";;;#x"] {
        assert_eq!(decode_html_entities(s).unwrap(), s);
    }
}

#[test]
fn plain_text_decodes_to_a_fixed_point() {
    let s = "no entities here;\n# x";
    let once = decode_html_entities(s).unwrap();
    let twice = decode_html_entities(&once).unwrap();
    assert_eq!(once, s);
    assert_eq!(twice, once);
}

#[test]
fn each_name_decodes_to_its_replacement() {
    let cases = [
        ("&amp;", "&"),
        ("&lt;", "<"),
        ("&gt;", ">"),
        ("&quot;", "\""),
        ("&apos;", "'"),
        ("&nbsp;", "\u{a0}"),
        ("&copy;", "\u{a9}"),
        ("&euro;", "\u{20ac}"),
        ("&alpha;", "\u{3b1}"),
        ("&Omega;", "\u{3a9}"),
        ("&hearts;", "\u{2665}"),
        ("&yuml;", "\u{ff}"),
        ("&NotEqualTilde;", "\u{2242}\u{338}"),
        ("&CounterClockwiseContourIntegral;", "\u{2233}"),
    ];
    let table = Entities::new();
    for (name, text) in cases {
        assert_eq!(decode_html_entities(name).unwrap(), text);
        assert_eq!(table.lookup(&name.to_string()).unwrap(), text);
    }
}

#[test]
fn decimal_and_hex_agree() {
    assert_eq!(decode_html_entities("&#38;").unwrap(), "&");
    assert_eq!(decode_html_entities("&#x26;").unwrap(), "&");
    assert_eq!(decode_html_entities("&#X26;").unwrap(), "&");
    assert_eq!(decode_html_entities("&#8364;").unwrap(), "\u{20ac}");
    assert_eq!(decode_html_entities("&#x20aC;").unwrap(), "\u{20ac}");
    assert_eq!(decode_html_entities("&#+38;").unwrap(), "&");
}

#[test]
fn largest_scalar_value_decodes() {
    assert_eq!(decode_html_entities("&#x10FFFF;").unwrap(), "\u{10ffff}");
    assert_eq!(decode_html_entities("&#1114111;").unwrap(), "\u{10ffff}");
    assert_eq!(decode_html_entities("&#0;").unwrap(), "\u{0}");
}

#[test]
fn max_name_length_of_the_table() {
    assert_eq!(Entities::new().max_name_length(), 33);
}

#[test]
fn name_at_the_cap_is_ill_formed() {
    let html = format!("&{}", "a".repeat(33));
    assert!(matches!(decode_html_entities(&html), Err(DecodeError::IllFormedEntity(1, 35))));
    let longer = format!("&{};", "a".repeat(40));
    assert!(matches!(decode_html_entities(&longer), Err(DecodeError::IllFormedEntity(1, 35))));
}

#[test]
fn name_under_the_cap_meets_the_end() {
    let html = format!("&{}", "a".repeat(32));
    assert!(matches!(decode_html_entities(&html), Err(DecodeError::EOF)));
}

#[test]
fn unterminated_name_meets_the_end() {
    assert!(matches!(decode_html_entities("&amp"), Err(DecodeError::EOF)));
    assert!(matches!(decode_html_entities("&"), Err(DecodeError::EOF)));
}

#[test]
fn unknown_name_is_reported() {
    match decode_html_entities("&unknown;") {
        Err(DecodeError::UnknownEntity(line, col, name)) => {
            assert_eq!(line, 1);
            assert_eq!(col, 10);
            assert_eq!(name, "&unknown;");
        },
        other => panic!("unexpected result {:?}", other),
    }
}

#[test]
fn sixteen_digits_are_ill_formed() {
    assert!(matches!(decode_html_entities("&#1234567890123456;"), Err(DecodeError::IllFormedEntity(1, 19))));
    assert!(matches!(decode_html_entities("&#x0000000000000041;"), Err(DecodeError::IllFormedEntity(1, 20))));
    assert_eq!(decode_html_entities("&#000000000000065;").unwrap(), "A");
}

#[test]
fn unterminated_number_meets_the_end() {
    assert!(matches!(decode_html_entities("&#38"), Err(DecodeError::EOF)));
    assert!(matches!(decode_html_entities("&#"), Err(DecodeError::EOF)));
    assert!(matches!(decode_html_entities("&#x"), Err(DecodeError::EOF)));
}

#[test]
fn non_scalar_numbers_are_ill_formed() {
    assert!(matches!(decode_html_entities("&#xD800;"), Err(DecodeError::IllFormedEntity(1, 9))));
    assert!(matches!(decode_html_entities("&#1114112;"), Err(DecodeError::IllFormedEntity(1, 11))));
    assert!(matches!(decode_html_entities("&#xFFFFFFFFF;"), Err(DecodeError::IllFormedEntity(1, 14))));
}

#[test]
fn bad_digits_are_ill_formed() {
    assert!(matches!(decode_html_entities("&#;"), Err(DecodeError::IllFormedEntity(1, 4))));
    assert!(matches!(decode_html_entities("&#1a;"), Err(DecodeError::IllFormedEntity(1, 6))));
    assert!(matches!(decode_html_entities("&#xg;"), Err(DecodeError::IllFormedEntity(1, 6))));
    assert!(matches!(decode_html_entities("&#+;"), Err(DecodeError::IllFormedEntity(1, 5))));
}

#[test]
fn newline_moves_to_the_next_line() {
    assert!(matches!(decode_html_entities("a\n&#;"), Err(DecodeError::IllFormedEntity(2, 4))));
    assert!(matches!(decode_html_entities("ab\ncd\n&#;"), Err(DecodeError::IllFormedEntity(3, 4))));
    match decode_html_entities("xyz\n&unknown;") {
        Err(DecodeError::UnknownEntity(line, col, _)) => {
            assert_eq!(line, 2);
            assert_eq!(col, 10);
        },
        other => panic!("unexpected result {:?}", other),
    }
}

#[test]
fn columns_count_every_character_read() {
    match decode_html_entities("&amp;&bogus;") {
        Err(DecodeError::UnknownEntity(1, col, name)) => {
            assert_eq!(col, 13);
            assert_eq!(name, "&bogus;");
        },
        other => panic!("unexpected result {:?}", other),
    }
    assert!(matches!(decode_html_entities("&#65;&#;"), Err(DecodeError::IllFormedEntity(1, 9))));
    assert!(matches!(decode_html_entities("&#x41;&#x;"), Err(DecodeError::IllFormedEntity(1, 11))));
}

#[test]
fn columns_count_text_before_an_error() {
    assert!(matches!(decode_html_entities("abc&#;"), Err(DecodeError::IllFormedEntity(1, 7))));
}

#[test]
fn decode_with_a_shared_table() {
    let table = Entities::new();
    assert_eq!(decode_with(&table, "x &lt; y &amp;&amp; z").unwrap(), "x < y && z");
    assert_eq!(decode_with(&table, "line\n&copy;2024").unwrap(), "line\n\u{a9}2024");
}

#[test]
fn lookup_misses_unknown_names() {
    let table = Entities::new();
    assert!(table.lookup(&"&nosuch;".to_string()).is_none());
    assert!(table.lookup(&"amp".to_string()).is_none());
}

#[test]
fn digits_are_read_in_their_base() {
    let chars: Vec<char> = "+7fZ".chars().collect();
    assert_eq!(parse_digits(&chars, 0, 3, 16), Some(127));
    assert_eq!(parse_digits(&chars, 1, 2, 10), Some(7));
    assert_eq!(parse_digits(&chars, 0, 4, 16), None);
    assert_eq!(parse_digits(&chars, 0, 1, 10), None);
    let big: Vec<char> = "99999999".chars().collect();
    assert_eq!(parse_digits(&big, 0, 8, 10), Some(0x110000));
}
