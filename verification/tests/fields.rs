use rlicker::fields::{field_text, parse_amount, parse_interval, parse_u32};

#[test]
fn parses_like_std() {
    for s in ["", "+", "-", "0", "+0", "-0", "12", "+12", "-12", "007", "1 ", " 1", "1e3",
        "4294967295", "4294967296", "99999999999999999999", "٣", "12a", "++1", "+-1"] {
        assert_eq!(parse_u32(s), s.parse::<u32>().ok(), "text {:?}", s);
    }
}

#[test]
fn interval_field() {
    assert_eq!(parse_interval("250"), 250);
    assert_eq!(parse_interval("0"), 1);
    assert_eq!(parse_interval(""), 1);
    assert_eq!(parse_interval("-5"), 1);
    assert_eq!(parse_interval("4294967296"), 1);
    assert_eq!(parse_interval("+7"), 7);
}

#[test]
fn amount_fields() {
    assert_eq!(parse_amount("50"), 50);
    assert_eq!(parse_amount("0"), 0);
    assert_eq!(parse_amount(""), 0);
    assert_eq!(parse_amount("abc"), 0);
    assert_eq!(parse_amount("4294967295"), 4294967295);
}

#[test]
fn field_text_reads_back() {
    for v in [0u32, 1, 9, 10, 50, 1000, 65536, 4294967295] {
        let t = field_text(v);
        assert_eq!(t, v.to_string());
        assert_eq!(parse_u32(&t), Some(v));
        assert_eq!(parse_amount(&t), v);
    }
    assert_eq!(parse_interval(&field_text(1000)), 1000);
}
