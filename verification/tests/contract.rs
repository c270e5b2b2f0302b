use order_api::contract::{Method, Request, ResponseKind};
use order_api::orders::{
    CancelAllOrder, CancelOrder, CancelOrderByClientId, CancelTriggerOrder, GetOpenOrders,
    GetOrder, GetOrderByClientId, GetOrderHistory, ModifyOrder, ModifyOrderByClientId,
    PlaceOrder, PlaceTriggerOrder,
};

#[test]
fn methods_are_fixed_per_operation() {
    assert_eq!(GetOpenOrders::method(), Method::Get);
    assert_eq!(PlaceOrder::method(), Method::Post);
    assert_eq!(ModifyOrder::method(), Method::Post);
    assert_eq!(GetOrder::method(), Method::Get);
    assert_eq!(CancelOrder::method(), Method::Delete);
    assert_eq!(CancelTriggerOrder::method(), Method::Delete);
    assert_eq!(CancelAllOrder::method(), Method::Delete);
    assert_eq!(CancelOrderByClientId::method(), Method::Delete);
    assert_eq!(GetOrderByClientId::method(), Method::Get);
    assert_eq!(GetOrderHistory::method(), Method::Get);
    assert_eq!(PlaceTriggerOrder::method(), Method::Post);
    assert_eq!(ModifyOrderByClientId::method(), Method::Post);
}

#[test]
fn method_tokens_are_upper_case() {
    assert_eq!(Method::Get.token(), "GET");
    assert_eq!(Method::Post.token(), "POST");
    assert_eq!(Method::Delete.token(), "DELETE");
}

#[test]
fn every_operation_requires_auth() {
    assert!(GetOpenOrders::requires_auth());
    assert!(PlaceOrder::requires_auth());
    assert!(ModifyOrder::requires_auth());
    assert!(GetOrder::requires_auth());
    assert!(CancelOrder::requires_auth());
    assert!(CancelTriggerOrder::requires_auth());
    assert!(CancelAllOrder::requires_auth());
    assert!(CancelOrderByClientId::requires_auth());
    assert!(GetOrderByClientId::requires_auth());
    assert!(GetOrderHistory::requires_auth());
    assert!(PlaceTriggerOrder::requires_auth());
    assert!(ModifyOrderByClientId::requires_auth());
}

#[test]
fn response_types_follow_the_operation() {
    assert_eq!(GetOpenOrders::response_type(), ResponseKind::OrderList);
    assert_eq!(PlaceOrder::response_type(), ResponseKind::Order);
    assert_eq!(ModifyOrder::response_type(), ResponseKind::Order);
    assert_eq!(GetOrder::response_type(), ResponseKind::Order);
    assert_eq!(CancelOrder::response_type(), ResponseKind::Confirmation);
    assert_eq!(CancelTriggerOrder::response_type(), ResponseKind::Confirmation);
    assert_eq!(CancelAllOrder::response_type(), ResponseKind::Confirmation);
    assert_eq!(CancelOrderByClientId::response_type(), ResponseKind::Confirmation);
    assert_eq!(GetOrderByClientId::response_type(), ResponseKind::Order);
    assert_eq!(GetOrderHistory::response_type(), ResponseKind::OrderList);
    assert_eq!(PlaceTriggerOrder::response_type(), ResponseKind::Order);
    assert_eq!(ModifyOrderByClientId::response_type(), ResponseKind::Order);
}

#[test]
fn optimized_access_is_offered_by_four_operations() {
    assert!(GetOpenOrders::supports_optimized_access());
    assert!(PlaceOrder::supports_optimized_access());
    assert!(CancelOrder::supports_optimized_access());
    assert!(CancelOrderByClientId::supports_optimized_access());
    assert!(!ModifyOrder::supports_optimized_access());
    assert!(!GetOrder::supports_optimized_access());
    assert!(!CancelTriggerOrder::supports_optimized_access());
    assert!(!CancelAllOrder::supports_optimized_access());
    assert!(!GetOrderByClientId::supports_optimized_access());
    assert!(!GetOrderHistory::supports_optimized_access());
    assert!(!PlaceTriggerOrder::supports_optimized_access());
    assert!(!ModifyOrderByClientId::supports_optimized_access());
}

#[test]
fn constructors_keep_their_argument() {
    assert_eq!(GetOrder::new(5).id, 5);
    assert_eq!(CancelOrder::new(6).id, 6);
    assert_eq!(CancelTriggerOrder::new(7).id, 7);
    assert_eq!(CancelOrderByClientId::new("x").client_id, "x");
    assert_eq!(GetOrderByClientId::new("y").client_id, "y");
    assert_eq!(GetOpenOrders::all_market().market, None);
    assert_eq!(GetOpenOrders::with_market("ETH-PERP").market, Some("ETH-PERP"));
    let all = CancelAllOrder::with_market("ETH-PERP");
    assert_eq!(all.market, Some("ETH-PERP"));
    assert_eq!(all.side, None);
    assert_eq!(all.conditional_orders_only, None);
    assert_eq!(all.limit_orders_only, None);
}

#[test]
fn defaults_are_empty() {
    assert_eq!(GetOrder::default().id, 0);
    assert_eq!(GetOpenOrders::default().market, None);
    let history = GetOrderHistory::default();
    assert_eq!(history.market, None);
    assert_eq!(history.side, None);
    assert_eq!(history.limit, None);
    assert_eq!(history.start_time, None);
    assert_eq!(history.end_time, None);
    let modify = ModifyOrderByClientId::default();
    assert_eq!(modify.client_id, "");
    assert_eq!(modify.price, None);
    assert_eq!(modify.size, None);
}
