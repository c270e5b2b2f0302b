use order_api::common::{OrderStatus, OrderType, Side};
use order_api::contract::{Request, ResponseKind};
use order_api::order_info::{DecodeError, OrderField, OrderInfo};
use order_api::orders::PlaceOrder;
use order_api::response::{decode_list, decode_response, Payload, Response, ResponseError};
use order_api::timestamp::Timestamp;
use order_api::wire::{Lookup, Object, Value};
use rust_decimal::Decimal;

fn text(s: &str) -> Value {
    Value::Text(s.to_string())
}

/// The seven required fields of a fresh market order.
fn minimal() -> Object {
    let mut payload = Object::new();
    payload.push("id", Value::Integer(9596912));
    payload.push("market", text("BTC-PERP"));
    payload.push("type", text("market"));
    payload.push("side", text("buy"));
    payload.push("size", Value::Number(Decimal::new(10, 1)));
    payload.push("status", text("new"));
    payload.push("createdAt", text("2019-03-05T09:56:55.728933+00:00"));
    payload
}

fn without(payload: &Object, key: &str) -> Object {
    let mut kept = Object::new();
    for field in payload.fields.iter() {
        if field.key != key {
            kept.push(&field.key, field.value.clone());
        }
    }
    kept
}

fn with(payload: &Object, key: &str, value: Value) -> Object {
    let mut changed = without(payload, key);
    changed.push(key, value);
    changed
}

fn error_of(payload: &Object) -> DecodeError {
    match OrderInfo::decode(payload) {
        Ok(info) => panic!("decoded: {:?}", info),
        Err(e) => e,
    }
}

#[test]
fn place_order_round_trip_preserves_market_side_size_type() {
    let request = PlaceOrder {
        market: "BTC-PERP",
        side: Side::Buy,
        price: None,
        order_type: OrderType::Market,
        size: Decimal::new(10, 1),
        reduce_only: false,
        ioc: false,
        post_only: false,
        client_id: None,
        reject_on_price_band: false,
    };
    let body = request.body();
    let mut response = Object::new();
    response.push("id", Value::Integer(1));
    response.push("status", text("new"));
    response.push("createdAt", text("2021-01-01T00:00:00Z"));
    for key in ["market", "side", "size", "type", "price"] {
        match body.find(key) {
            Lookup::Once(v) => response.push(key, v.clone()),
            other => panic!("{}: {:?}", key, other),
        }
    }
    let info = OrderInfo::decode(&response).unwrap();
    assert_eq!(info.market, "BTC-PERP");
    assert_eq!(info.side, Side::Buy);
    assert_eq!(info.size, Decimal::new(10, 1));
    assert_eq!(info.order_type, OrderType::Market);
    assert_eq!(info.price, None);
}

#[test]
fn missing_optional_fields_decode_to_none() {
    let info = OrderInfo::decode(&minimal()).unwrap();
    assert_eq!(info.id, 9596912);
    assert_eq!(info.market, "BTC-PERP");
    assert_eq!(info.order_type, OrderType::Market);
    assert_eq!(info.side, Side::Buy);
    assert_eq!(info.size, Decimal::new(10, 1));
    assert_eq!(info.status, OrderStatus::New);
    assert_eq!(info.created_at, Timestamp::new(1551779815, 728_933_000));
    assert_eq!(info.filled_size, None);
    assert_eq!(info.avg_fill_price, None);
    assert_eq!(info.client_id, None);
    assert_eq!(info.future, None);
    assert_eq!(info.price, None);
    assert_eq!(info.reduce_only, None);
    assert_eq!(info.ioc, None);
    assert_eq!(info.post_only, None);
    assert_eq!(info.remaining_size, None);
    assert_eq!(info.liquidation, None);
    assert_eq!(info.retry_until_filled, None);
    assert_eq!(info.trigger_price, None);
    assert_eq!(info.order_price, None);
    assert_eq!(info.triggered_at, None);
    assert_eq!(info.error, None);
}

#[test]
fn explicit_null_decodes_to_none_in_optional_fields() {
    let mut payload = minimal();
    payload.push("price", Value::Null);
    payload.push("clientId", Value::Null);
    payload.push("ioc", Value::Null);
    let info = OrderInfo::decode(&payload).unwrap();
    assert_eq!(info.price, None);
    assert_eq!(info.client_id, None);
    assert_eq!(info.ioc, None);
}

#[test]
fn unknown_field_is_ignored() {
    let mut payload = Object::new();
    payload.push("somethingNew", Value::Nested);
    for field in minimal().fields.iter() {
        payload.push(&field.key, field.value.clone());
    }
    payload.push("another", text("x"));
    payload.push("another", Value::Integer(3));
    let info = OrderInfo::decode(&payload).unwrap();
    assert_eq!(info.id, 9596912);
    assert_eq!(info.market, "BTC-PERP");
    assert_eq!(info.created_at, Timestamp::new(1551779815, 728_933_000));
}

#[test]
fn snake_case_keys_are_unknown() {
    let mut payload = without(&minimal(), "createdAt");
    payload.push("created_at", text("2019-03-05T09:56:55.728933+00:00"));
    assert_eq!(error_of(&payload), DecodeError::Missing(OrderField::CreatedAt));
}

#[test]
fn full_record_decodes_every_field() {
    let mut payload = minimal();
    payload = with(&payload, "type", text("limit"));
    payload = with(&payload, "side", text("sell"));
    payload = with(&payload, "status", text("closed"));
    payload.push("future", text("BTC-PERP"));
    payload.push("price", Value::Number(Decimal::new(306525, 6)));
    payload.push("reduceOnly", Value::Bool(false));
    payload.push("ioc", Value::Bool(true));
    payload.push("postOnly", Value::Bool(false));
    payload.push("filledSize", Value::Number(Decimal::new(5, 1)));
    payload.push("remainingSize", Value::Number(Decimal::new(5, 1)));
    payload.push("avgFillPrice", Value::Number(Decimal::new(306526, 6)));
    payload.push("liquidation", Value::Bool(false));
    payload.push("clientId", text("abc-1"));
    payload.push("retryUntilFilled", Value::Bool(true));
    payload.push("triggerPrice", Value::Number(Decimal::new(3, 1)));
    payload.push("orderPrice", Value::Number(Decimal::new(4, 1)));
    payload.push("triggeredAt", text("2019-03-05T09:57:00+00:00"));
    payload.push("error", text("Insufficient margin"));
    let info = OrderInfo::decode(&payload).unwrap();
    assert_eq!(info.order_type, OrderType::Limit);
    assert_eq!(info.side, Side::Sell);
    assert_eq!(info.status, OrderStatus::Closed);
    assert_eq!(info.future.as_deref(), Some("BTC-PERP"));
    assert_eq!(info.price, Some(Decimal::new(306525, 6)));
    assert_eq!(info.reduce_only, Some(false));
    assert_eq!(info.ioc, Some(true));
    assert_eq!(info.post_only, Some(false));
    assert_eq!(info.filled_size, Some(Decimal::new(5, 1)));
    assert_eq!(info.remaining_size, Some(Decimal::new(5, 1)));
    assert_eq!(info.avg_fill_price, Some(Decimal::new(306526, 6)));
    assert_eq!(info.liquidation, Some(false));
    assert_eq!(info.client_id.as_deref(), Some("abc-1"));
    assert_eq!(info.retry_until_filled, Some(true));
    assert_eq!(info.trigger_price, Some(Decimal::new(3, 1)));
    assert_eq!(info.order_price, Some(Decimal::new(4, 1)));
    assert_eq!(info.triggered_at.as_deref(), Some("2019-03-05T09:57:00+00:00"));
    assert_eq!(info.error.as_deref(), Some("Insufficient margin"));
}

#[test]
fn every_order_type_and_status_decodes() {
    let kinds = [
        ("market", OrderType::Market),
        ("limit", OrderType::Limit),
        ("stop", OrderType::Stop),
        ("trailingStop", OrderType::TrailingStop),
        ("takeProfit", OrderType::TakeProfit),
    ];
    for (name, kind) in kinds {
        let info = OrderInfo::decode(&with(&minimal(), "type", text(name))).unwrap();
        assert_eq!(info.order_type, kind);
    }
    let statuses =
        [("new", OrderStatus::New), ("open", OrderStatus::Open), ("closed", OrderStatus::Closed)];
    for (name, status) in statuses {
        let info = OrderInfo::decode(&with(&minimal(), "status", text(name))).unwrap();
        assert_eq!(info.status, status);
    }
}

#[test]
fn each_required_field_is_missed() {
    let required = [
        ("id", OrderField::Id),
        ("market", OrderField::Market),
        ("type", OrderField::Type),
        ("side", OrderField::Side),
        ("size", OrderField::Size),
        ("status", OrderField::Status),
        ("createdAt", OrderField::CreatedAt),
    ];
    for (key, field) in required {
        assert_eq!(error_of(&without(&minimal(), key)), DecodeError::Missing(field));
    }
    assert_eq!(error_of(&Object::new()), DecodeError::Missing(OrderField::Id));
}

#[test]
fn first_unreadable_field_in_declaration_order_names_the_error() {
    let payload = without(&without(&minimal(), "status"), "market");
    assert_eq!(error_of(&payload), DecodeError::Missing(OrderField::Market));
    let payload = with(&without(&minimal(), "createdAt"), "side", text("up"));
    assert_eq!(error_of(&payload), DecodeError::Invalid(OrderField::Side));
}

#[test]
fn wrong_shape_is_invalid() {
    let cases = [
        ("id", text("1"), OrderField::Id),
        ("id", Value::Integer(-1), OrderField::Id),
        ("id", Value::Integer(18446744073709551616), OrderField::Id),
        ("id", Value::Null, OrderField::Id),
        ("market", Value::Integer(1), OrderField::Market),
        ("market", Value::Null, OrderField::Market),
        ("type", text("Market"), OrderField::Type),
        ("side", text("BUY"), OrderField::Side),
        ("side", Value::Bool(true), OrderField::Side),
        ("size", Value::Bool(true), OrderField::Size),
        ("size", text("one"), OrderField::Size),
        ("size", Value::Nested, OrderField::Size),
        ("status", text("cancelled"), OrderField::Status),
        ("createdAt", text("yesterday"), OrderField::CreatedAt),
        ("createdAt", Value::Integer(1551779815), OrderField::CreatedAt),
        ("price", Value::Bool(false), OrderField::Price),
        ("ioc", text("true"), OrderField::Ioc),
        ("clientId", Value::Integer(5), OrderField::ClientId),
        ("error", Value::Nested, OrderField::Error),
    ];
    for (key, value, field) in cases {
        assert_eq!(error_of(&with(&minimal(), key, value)), DecodeError::Invalid(field));
    }
}

#[test]
fn largest_identifier_decodes() {
    let payload = with(&minimal(), "id", Value::Integer(18446744073709551615));
    assert_eq!(OrderInfo::decode(&payload).unwrap().id, u64::MAX);
    let payload = with(&minimal(), "id", Value::Integer(0));
    assert_eq!(OrderInfo::decode(&payload).unwrap().id, 0);
}

#[test]
fn repeated_known_key_is_an_error() {
    let mut payload = minimal();
    payload.push("market", text("ETH-PERP"));
    assert_eq!(error_of(&payload), DecodeError::Repeated(OrderField::Market));
    let mut payload = minimal();
    payload.push("ioc", Value::Bool(true));
    payload.push("ioc", Value::Bool(true));
    assert_eq!(error_of(&payload), DecodeError::Repeated(OrderField::Ioc));
}

#[test]
fn decimal_fields_accept_whole_numbers_and_text() {
    let info = OrderInfo::decode(&with(&minimal(), "size", Value::Integer(5))).unwrap();
    assert_eq!(info.size, Decimal::new(5, 0));
    assert_eq!(info.size.scale(), 0);
    let info = OrderInfo::decode(&with(&minimal(), "size", Value::Integer(-12))).unwrap();
    assert_eq!(info.size, Decimal::new(-12, 0));
    let info = OrderInfo::decode(&with(&minimal(), "size", text("1.50"))).unwrap();
    assert_eq!(info.size, Decimal::new(150, 2));
    assert_eq!(info.size.scale(), 2);
    let info = OrderInfo::decode(&with(&minimal(), "price", text("1.2e3"))).unwrap();
    assert_eq!(info.price, Some(Decimal::new(1200, 0)));
}

#[test]
fn whole_number_beyond_ninety_six_bits_is_no_decimal() {
    let largest: i128 = 0xFFFF_FFFF_FFFF_FFFF_FFFF_FFFF;
    let info = OrderInfo::decode(&with(&minimal(), "size", Value::Integer(largest))).unwrap();
    assert_eq!(info.size, Decimal::MAX);
    let info = OrderInfo::decode(&with(&minimal(), "size", Value::Integer(-largest))).unwrap();
    assert_eq!(info.size, Decimal::MIN);
    let payload = with(&minimal(), "size", Value::Integer(largest + 1));
    assert_eq!(error_of(&payload), DecodeError::Invalid(OrderField::Size));
    let payload = with(&minimal(), "size", Value::Integer(-largest - 1));
    assert_eq!(error_of(&payload), DecodeError::Invalid(OrderField::Size));
}

#[test]
fn creation_time_is_converted_to_utc() {
    let payload = with(&minimal(), "createdAt", text("2012-12-12T14:12:12+02:00"));
    let info = OrderInfo::decode(&payload).unwrap();
    assert_eq!(info.created_at, Timestamp::new(1355314332, 0));
    let payload = with(&minimal(), "createdAt", text("2012-12-12 12:12:12Z"));
    let info = OrderInfo::decode(&payload).unwrap();
    assert_eq!(info.created_at, Timestamp::new(1355314332, 0));
}

#[test]
fn list_decodes_in_order() {
    let first = minimal();
    let second = with(&minimal(), "id", Value::Integer(2));
    let orders = decode_list(&vec![first, second]).unwrap();
    assert_eq!(orders.len(), 2);
    assert_eq!(orders[0].id, 9596912);
    assert_eq!(orders[1].id, 2);
    assert_eq!(decode_list(&Vec::new()).unwrap().len(), 0);
}

#[test]
fn list_reports_the_first_bad_record() {
    let good = minimal();
    let bad = without(&minimal(), "size");
    let worse = without(&minimal(), "id");
    match decode_list(&vec![good, bad, worse]) {
        Err((index, e)) => {
            assert_eq!(index, 1);
            assert_eq!(e, DecodeError::Missing(OrderField::Size));
        },
        Ok(_) => panic!("decoded"),
    }
}

#[test]
fn response_is_decoded_into_the_declared_shape() {
    match decode_response(ResponseKind::Order, &Payload::Object(minimal())) {
        Ok(Response::Order(info)) => assert_eq!(info.id, 9596912),
        other => panic!("{:?}", other),
    }
    match decode_response(ResponseKind::OrderList, &Payload::List(vec![minimal()])) {
        Ok(Response::OrderList(orders)) => assert_eq!(orders.len(), 1),
        other => panic!("{:?}", other),
    }
    let queued = Payload::Text("Order queued for cancellation".to_string());
    match decode_response(ResponseKind::Confirmation, &queued) {
        Ok(Response::Confirmation(message)) => assert_eq!(message, "Order queued for cancellation"),
        other => panic!("{:?}", other),
    }
}

#[test]
fn response_of_another_shape_is_refused() {
    let text_payload = Payload::Text("ok".to_string());
    let object = Payload::Object(minimal());
    let list = Payload::List(vec![minimal()]);
    assert!(matches!(
        decode_response(ResponseKind::Order, &text_payload),
        Err(ResponseError::Shape)
    ));
    assert!(matches!(decode_response(ResponseKind::Order, &list), Err(ResponseError::Shape)));
    assert!(matches!(
        decode_response(ResponseKind::OrderList, &object),
        Err(ResponseError::Shape)
    ));
    assert!(matches!(
        decode_response(ResponseKind::Confirmation, &object),
        Err(ResponseError::Shape)
    ));
}

#[test]
fn response_errors_carry_the_decode_error() {
    let bad = without(&minimal(), "side");
    assert!(matches!(
        decode_response(ResponseKind::Order, &Payload::Object(bad.clone())),
        Err(ResponseError::Order(DecodeError::Missing(OrderField::Side)))
    ));
    assert!(matches!(
        decode_response(ResponseKind::OrderList, &Payload::List(vec![minimal(), bad])),
        Err(ResponseError::Item(1, DecodeError::Missing(OrderField::Side)))
    ));
}

#[test]
fn order_field_keys_are_lower_camel_case() {
    assert_eq!(OrderField::Id.key(), "id");
    assert_eq!(OrderField::Type.key(), "type");
    assert_eq!(OrderField::ReduceOnly.key(), "reduceOnly");
    assert_eq!(OrderField::FilledSize.key(), "filledSize");
    assert_eq!(OrderField::AvgFillPrice.key(), "avgFillPrice");
    assert_eq!(OrderField::CreatedAt.key(), "createdAt");
    assert_eq!(OrderField::RetryUntilFilled.key(), "retryUntilFilled");
    assert_eq!(OrderField::TriggeredAt.key(), "triggeredAt");
    assert!(!OrderField::Id.is_optional());
    assert!(!OrderField::CreatedAt.is_optional());
    assert!(OrderField::Price.is_optional());
    assert!(OrderField::Error.is_optional());
}
