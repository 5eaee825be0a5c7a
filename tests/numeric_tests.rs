use dobot_controller::numeric::{parse_milli, parse_u32};

#[test]
fn milli_values() {
    assert_eq!(parse_milli("200"), Some(200000));
    assert_eq!(parse_milli("-22.5"), Some(-22500));
    assert_eq!(parse_milli("+0.125"), Some(125));
    assert_eq!(parse_milli("12.05"), Some(12050));
    assert_eq!(parse_milli("4294967295.999"), Some(4294967295999));
}

#[test]
fn milli_rejections() {
    assert_eq!(parse_milli(""), None);
    assert_eq!(parse_milli("-"), None);
    assert_eq!(parse_milli("1."), None);
    assert_eq!(parse_milli(".5"), None);
    assert_eq!(parse_milli("1.2345"), None);
    assert_eq!(parse_milli("1e3"), None);
    assert_eq!(parse_milli("4294967296"), None);
}

#[test]
fn whole_numbers() {
    assert_eq!(parse_u32("42"), Some(42));
    assert_eq!(parse_u32("+7"), Some(7));
    assert_eq!(parse_u32("4294967295"), Some(u32::MAX));
    assert_eq!(parse_u32("4294967296"), None);
    assert_eq!(parse_u32("-1"), None);
    assert_eq!(parse_u32("3.5"), None);
    assert_eq!(parse_u32(""), None);
}
