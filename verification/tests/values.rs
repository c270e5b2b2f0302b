use order_api::common::{text_eq, OrderStatus, OrderType, Side};
use order_api::decimal::decimal_from_integer;
use order_api::timestamp::Timestamp;
use order_api::wire::{Lookup, Object, Value};
use rust_decimal::Decimal;

#[test]
fn side_names_round_trip() {
    assert_eq!(Side::Buy.wire_name(), "buy");
    assert_eq!(Side::Sell.wire_name(), "sell");
    assert_eq!(Side::parse("buy"), Some(Side::Buy));
    assert_eq!(Side::parse("sell"), Some(Side::Sell));
    assert_eq!(Side::parse("Buy"), None);
    assert_eq!(Side::parse(""), None);
    assert_eq!(Side::default(), Side::Buy);
}

#[test]
fn order_type_names_round_trip() {
    let all = [
        OrderType::Market,
        OrderType::Limit,
        OrderType::Stop,
        OrderType::TrailingStop,
        OrderType::TakeProfit,
    ];
    for kind in all {
        assert_eq!(OrderType::parse(kind.wire_name()), Some(kind));
    }
    assert_eq!(OrderType::TrailingStop.wire_name(), "trailingStop");
    assert_eq!(OrderType::TakeProfit.wire_name(), "takeProfit");
    assert_eq!(OrderType::parse("trailing_stop"), None);
    assert_eq!(OrderType::default(), OrderType::Market);
}

#[test]
fn order_status_names_round_trip() {
    for status in [OrderStatus::New, OrderStatus::Open, OrderStatus::Closed] {
        assert_eq!(OrderStatus::parse(status.wire_name()), Some(status));
    }
    assert_eq!(OrderStatus::Closed.wire_name(), "closed");
    assert_eq!(OrderStatus::parse("filled"), None);
}

#[test]
fn text_comparison_is_exact() {
    assert!(text_eq("abc", "abc"));
    assert!(text_eq("", ""));
    assert!(!text_eq("abc", "abd"));
    assert!(!text_eq("abc", "ab"));
    assert!(!text_eq("abc", "ABC"));
}

#[test]
fn whole_numbers_become_decimals_of_scale_zero() {
    assert_eq!(decimal_from_integer(0), Some(Decimal::ZERO));
    assert_eq!(decimal_from_integer(42), Some(Decimal::new(42, 0)));
    assert_eq!(decimal_from_integer(-7), Some(Decimal::new(-7, 0)));
    assert_eq!(decimal_from_integer(42).unwrap().scale(), 0);
    assert_eq!(decimal_from_integer(i128::MAX), None);
    assert_eq!(decimal_from_integer(i128::MIN), None);
}

#[test]
fn decimal_text_is_read_plain_or_scientific() {
    let read = |text: &str| Value::Text(text.to_string()).as_decimal();
    assert_eq!(read("1.5"), Some(Decimal::new(15, 1)));
    assert_eq!(read("-0.25"), Some(Decimal::new(-25, 2)));
    assert_eq!(read("42"), Some(Decimal::new(42, 0)));
    assert_eq!(read("9.7e-7"), Some(Decimal::new(97, 8)));
    assert_eq!(read("1.2E3"), Some(Decimal::new(1200, 0)));
    assert_eq!(read("abc"), None);
    assert_eq!(read("1.5x"), None);
    assert_eq!(read(""), None);
}

#[test]
fn timestamps_parse_to_unix_seconds() {
    let t = Timestamp::parse("2019-03-05T09:56:55.728933+00:00").unwrap();
    assert_eq!(t.seconds, 1551779815);
    assert_eq!(t.nanos, 728_933_000);
    assert_eq!(t.unix_seconds(), 1551779815);
    assert_eq!(Timestamp::parse("2021-01-01T00:00:00Z"), Some(Timestamp::new(1609459200, 0)));
    assert_eq!(Timestamp::parse("1969-12-31T23:59:59Z"), Some(Timestamp::new(-1, 0)));
    assert_eq!(Timestamp::parse("2021-01-01"), None);
    assert_eq!(Timestamp::parse(""), None);
}

#[test]
fn timestamp_parts_are_kept() {
    assert_eq!(Timestamp::from_parts(Some((5, 6))), Some(Timestamp { seconds: 5, nanos: 6 }));
    assert_eq!(Timestamp::from_parts(None), None);
}

#[test]
fn find_tells_absent_once_and_repeated_apart() {
    let mut object = Object::new();
    assert!(matches!(object.find("a"), Lookup::Absent));
    object.push("a", Value::Integer(1));
    object.push("b", Value::Bool(true));
    assert!(matches!(object.find("a"), Lookup::Once(Value::Integer(1))));
    assert!(matches!(object.find("b"), Lookup::Once(Value::Bool(true))));
    assert!(matches!(object.find("c"), Lookup::Absent));
    object.push("a", Value::Integer(2));
    assert!(matches!(object.find("a"), Lookup::Repeated));
    assert!(matches!(object.find("b"), Lookup::Once(Value::Bool(true))));
    assert!(object.contains_key("a"));
    assert!(object.contains_key("b"));
    assert!(!object.contains_key("A"));
    assert_eq!(object.len(), 3);
}

#[test]
fn push_optional_leaves_no_key_for_an_absent_value() {
    let mut object = Object::new();
    object.push_optional("a", None);
    assert_eq!(object.len(), 0);
    object.push_optional("a", Some(Value::Null));
    assert_eq!(object.len(), 1);
    assert!(matches!(object.find("a"), Lookup::Once(Value::Null)));
}

#[test]
fn values_convert_by_shape() {
    let t = Value::Text("buy".to_string());
    assert_eq!(t.as_text().as_deref(), Some("buy"));
    assert_eq!(t.as_side(), Some(Side::Buy));
    assert_eq!(t.as_flag(), None);
    assert_eq!(t.as_id(), None);
    assert_eq!(t.as_decimal(), None);
    assert_eq!(t.as_order_type(), None);
    assert_eq!(t.as_order_status(), None);
    assert_eq!(t.as_timestamp(), None);
    assert_eq!(Value::Bool(true).as_flag(), Some(true));
    assert_eq!(Value::Bool(true).as_text(), None);
    assert_eq!(Value::Integer(7).as_id(), Some(7));
    assert_eq!(Value::Integer(7).as_decimal(), Some(Decimal::new(7, 0)));
    assert_eq!(Value::Number(Decimal::new(7, 1)).as_decimal(), Some(Decimal::new(7, 1)));
    assert_eq!(Value::Number(Decimal::new(7, 0)).as_id(), None);
    assert_eq!(Value::Null.as_decimal(), None);
    assert_eq!(Value::Nested.as_text(), None);
    assert_eq!(Value::Text("open".to_string()).as_order_status(), Some(OrderStatus::Open));
    assert_eq!(Value::Text("stop".to_string()).as_order_type(), Some(OrderType::Stop));
}

#[test]
fn optional_values_are_none_when_absent() {
    assert!(Value::optional_text(None).is_none());
    assert!(matches!(Value::optional_text(Some("x")), Some(Value::Text(t)) if t == "x"));
    assert!(Value::optional_number(None).is_none());
    assert!(Value::optional_flag(None).is_none());
    assert!(matches!(Value::optional_flag(Some(false)), Some(Value::Bool(false))));
    assert!(matches!(Value::nullable_number(None), Value::Null));
    let d = Decimal::new(5, 1);
    assert!(matches!(Value::nullable_number(Some(d)), Value::Number(n) if n == d));
    assert!(matches!(Value::optional_number(Some(d)), Some(Value::Number(n)) if n == d));
    assert!(matches!(Value::text("x"), Value::Text(t) if t == "x"));
}
