use json_writer::{to_json_string, write_part_of_string, write_string};

#[test]
fn test_strings() {
    assert_eq!(
        to_json_string("中文\0\x08\x09\"\\\n\r\t</script>"),
        "\"中文\\u0000\\b\\t\\\"\\\\\\n\\r\\t<\\/script>\""
    );
}

#[test]
fn test_encoding() {
    for c in 0x00..0x20 {
        let c = char::from(c);
        let json = to_json_string(c.to_string().as_str());
        assert!(&json[0..2] == "\"\\");
    }
    assert_eq!(
        to_json_string("</script >\0\x1F"),
        "\"<\\/script >\\u0000\\u001F\""
    );
}

#[test]
fn write_string_quotes_and_escapes() {
    let mut buffer = String::from("x=");
    write_string(&mut buffer, "a\"b");
    assert_eq!(&buffer, "x=\"a\\\"b\"");
}

#[test]
fn write_part_of_string_leaves_quotes_out() {
    let mut buffer = String::new();
    write_part_of_string(&mut buffer, "a\"b\\c");
    assert_eq!(&buffer, "a\\\"b\\\\c");
}

/// Decodes JSON string-content escapes the way a conforming parser does.
fn unescape(s: &str) -> String {
    let chars: Vec<char> = s.chars().collect();
    let mut out = String::new();
    let mut i = 0;
    while i < chars.len() {
        if chars[i] != '\\' {
            out.push(chars[i]);
            i += 1;
        } else if chars[i + 1] == 'u' {
            let code: u32 = chars[i + 2..i + 6]
                .iter()
                .fold(0, |acc, c| acc * 16 + c.to_digit(16).unwrap());
            out.push(char::from_u32(code).unwrap());
            i += 6;
        } else {
            out.push(match chars[i + 1] {
                'b' => '\u{8}',
                'f' => '\u{c}',
                'n' => '\n',
                'r' => '\r',
                't' => '\t',
                other => other,
            });
            i += 2;
        }
    }
    out
}

#[test]
fn escape_round_trips_through_a_parser() {
    let samples = [
        "",
        "plain text",
        "中文\0\x08\x09\"\\\n\r\t</script>",
        "\x01\x02\x1f\x7fä",
        "a/b\\c\"d",
    ];
    for s in samples {
        let mut escaped = String::new();
        write_part_of_string(&mut escaped, s);
        assert_eq!(unescape(&escaped), s);
    }
}

#[test]
fn empty_string_renders_as_bare_quotes() {
    assert_eq!(to_json_string(""), "\"\"");
}

#[test]
fn cow_strings_render_like_their_contents() {
    let borrowed: std::borrow::Cow<str> = std::borrow::Cow::Borrowed("a\"b");
    assert_eq!(to_json_string(&borrowed), "\"a\\\"b\"");
    let owned: std::borrow::Cow<str> = std::borrow::Cow::Owned("c\\d".to_owned());
    assert_eq!(to_json_string(&owned), "\"c\\\\d\"");
}
