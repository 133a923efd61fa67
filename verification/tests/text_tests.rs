use e2l_parser::text::{last_topic_segment, parse_u32, text_contains, to_hex_upper};

#[test]
fn hex_upper_two_digits_per_byte() {
    assert_eq!(to_hex_upper(&[0xab, 0x01, 0x00, 0xf0]), "AB0100F0");
    assert_eq!(to_hex_upper(&[]), "");
}

#[test]
fn parse_u32_reads_decimal_numbers() {
    assert_eq!(parse_u32("125"), Some(125));
    assert_eq!(parse_u32("+7"), Some(7));
    assert_eq!(parse_u32("007"), Some(7));
    assert_eq!(parse_u32("4294967295"), Some(u32::MAX));
}

#[test]
fn parse_u32_refuses_what_std_refuses() {
    for text in ["", "+", "-1", "12a", "W125", " 1", "4294967296", "99999999999"] {
        assert_eq!(parse_u32(text), text.parse::<u32>().ok(), "{text}");
        assert_eq!(parse_u32(text), None, "{text}");
    }
}

#[test]
fn last_topic_segment_is_after_last_slash() {
    assert_eq!(last_topic_segment("control/gw1/add_assigned_device"), "add_assigned_device");
    assert_eq!(last_topic_segment("command"), "command");
    assert_eq!(last_topic_segment("base/"), "");
    assert_eq!(last_topic_segment(""), "");
}

#[test]
fn text_contains_finds_substrings() {
    assert!(text_contains("{\"code\":\"ALREADY_EXISTS\"}", "ALREADY_EXISTS"));
    assert!(!text_contains("{\"code\":\"BAD_REQUEST\"}", "ALREADY_EXISTS"));
    assert!(text_contains("abc", ""));
    assert!(!text_contains("ab", "abc"));
}
