use order_api::contract::Request;
use order_api::orders::{
    CancelAllOrder, CancelOrder, CancelOrderByClientId, CancelTriggerOrder, GetOpenOrders,
    GetOrder, GetOrderByClientId, GetOrderHistory, ModifyOrder, ModifyOrderByClientId,
    PlaceOrder, PlaceTriggerOrder,
};
use order_api::text::render_decimal;

#[test]
fn get_order_path_holds_the_identifier() {
    assert_eq!(GetOrder::new(42).path(), "/orders/42");
}

#[test]
fn cancel_order_path_holds_the_identifier() {
    assert_eq!(CancelOrder::new(42).path(), "/orders/42");
}

#[test]
fn modify_order_path_ends_in_modify() {
    let request = ModifyOrder { id: 42, ..ModifyOrder::default() };
    assert_eq!(request.path(), "/orders/42/modify");
}

#[test]
fn cancel_trigger_order_path_is_under_conditional_orders() {
    assert_eq!(CancelTriggerOrder::new(42).path(), "/conditional_orders/42");
}

#[test]
fn client_id_paths_hold_the_raw_client_id() {
    assert_eq!(CancelOrderByClientId::new("abc-1").path(), "/orders/by_client_id/abc-1");
    assert_eq!(GetOrderByClientId::new("abc-1").path(), "/orders/by_client_id/abc-1");
}

#[test]
fn modify_by_client_id_path_ends_in_modify() {
    let request = ModifyOrderByClientId { client_id: "abc-1", price: None, size: None };
    assert_eq!(request.path(), "/orders/by_client_id/abc-1/modify");
}

#[test]
fn client_id_is_not_escaped() {
    assert_eq!(GetOrderByClientId::new("a b/c").path(), "/orders/by_client_id/a b/c");
    assert_eq!(GetOrderByClientId::new("").path(), "/orders/by_client_id/");
}

#[test]
fn fixed_paths_are_literal() {
    assert_eq!(GetOpenOrders::all_market().path(), "/orders");
    assert_eq!(GetOpenOrders::with_market("BTC-PERP").path(), "/orders");
    assert_eq!(PlaceOrder::default().path(), "/orders");
    assert_eq!(CancelAllOrder::with_market("BTC-PERP").path(), "/orders");
    assert_eq!(GetOrderHistory::default().path(), "/orders/history");
    assert_eq!(PlaceTriggerOrder::default().path(), "/conditional_orders");
}

#[test]
fn identifiers_render_without_sign_or_padding() {
    assert_eq!(GetOrder::new(0).path(), "/orders/0");
    assert_eq!(GetOrder::new(7).path(), "/orders/7");
    assert_eq!(GetOrder::new(10).path(), "/orders/10");
    assert_eq!(GetOrder::new(1000).path(), "/orders/1000");
    assert_eq!(GetOrder::new(u64::MAX).path(), "/orders/18446744073709551615");
}

#[test]
fn render_decimal_agrees_with_std() {
    let samples: Vec<u64> = vec![0, 1, 9, 10, 11, 99, 100, 101, 12345, 9876543210, u64::MAX];
    for n in samples {
        assert_eq!(render_decimal(n), format!("{}", n));
    }
}
