//! Which keys a body holds: the presence rules of every descriptor.
//!
//! For each descriptor one law gives, key by key, what a search of its body
//! finds, and says that no other key is there. Further laws say that no body
//! but that of `PlaceOrder` holds a null, that every operation needs
//! authentication, and what the two most common filtered calls transmit.

use crate::contract::Request;
use crate::orders::{
    optional_count, optional_side, optional_time, CancelAllOrder, CancelOrder,
    CancelOrderByClientId, CancelTriggerOrder, GetOpenOrders, GetOrder, GetOrderByClientId,
    GetOrderHistory, ModifyOrder, ModifyOrderByClientId, PlaceOrder, PlaceTriggerOrder,
};
use crate::wire::{
    lemma_lookup_empty, lemma_lookup_put, lemma_lookup_put_optional, lookup, nullable_number,
    optional_flag, optional_lookup, optional_number, optional_text, text_value, FieldView,
    LookupView, ValueView,
};
use vstd::prelude::*;

verus! {

/// The length of every key of a body or of an order record, and for keys of
/// one length the characters that tell them apart.
pub proof fn lemma_key_marks()
    ensures
        "id"@.len() == 2,
        "market"@.len() == 6 && "market"@[0] == 'm' && "market"@[2] == 'r',
        "side"@.len() == 4 && "side"@[0] == 's' && "side"@[2] == 'd',
        "price"@.len() == 5 && "price"@[0] == 'p' && "price"@[2] == 'i',
        "type"@.len() == 4 && "type"@[0] == 't' && "type"@[2] == 'p',
        "size"@.len() == 4 && "size"@[0] == 's' && "size"@[2] == 'z',
        "reduceOnly"@.len() == 10 && "reduceOnly"@[0] == 'r' && "reduceOnly"@[2] == 'd',
        "ioc"@.len() == 3,
        "postOnly"@.len() == 8 && "postOnly"@[0] == 'p' && "postOnly"@[2] == 's',
        "clientId"@.len() == 8 && "clientId"@[0] == 'c' && "clientId"@[2] == 'i',
        "rejectOnPriceBand"@.len() == 17,
        "conditionalOrdersOnly"@.len() == 21,
        "limitOrdersOnly"@.len() == 15,
        "limit"@.len() == 5 && "limit"@[0] == 'l' && "limit"@[2] == 'm',
        "startTime"@.len() == 9 && "startTime"@[0] == 's' && "startTime"@[2] == 'a',
        "endTime"@.len() == 7,
        "triggerPrice"@.len() == 12 && "triggerPrice"@[0] == 't' && "triggerPrice"@[2] == 'i',
        "retryUntilFilled"@.len() == 16,
        "orderPrice"@.len() == 10 && "orderPrice"@[0] == 'o' && "orderPrice"@[2] == 'd',
        "trailValue"@.len() == 10 && "trailValue"@[0] == 't' && "trailValue"@[2] == 'a',
        "future"@.len() == 6 && "future"@[0] == 'f' && "future"@[2] == 't',
        "status"@.len() == 6 && "status"@[0] == 's' && "status"@[2] == 'a',
        "filledSize"@.len() == 10 && "filledSize"@[0] == 'f' && "filledSize"@[2] == 'l',
        "remainingSize"@.len() == 13,
        "avgFillPrice"@.len() == 12 && "avgFillPrice"@[0] == 'a' && "avgFillPrice"@[2] == 'g',
        "liquidation"@.len() == 11 && "liquidation"@[0] == 'l' && "liquidation"@[2] == 'q',
        "createdAt"@.len() == 9 && "createdAt"@[0] == 'c' && "createdAt"@[2] == 'e',
        "triggeredAt"@.len() == 11 && "triggeredAt"@[0] == 't' && "triggeredAt"@[2] == 'i',
        "error"@.len() == 5 && "error"@[0] == 'e' && "error"@[2] == 'r',
{
    reveal_strlit("id");
    reveal_strlit("market");
    reveal_strlit("side");
    reveal_strlit("price");
    reveal_strlit("type");
    reveal_strlit("size");
    reveal_strlit("reduceOnly");
    reveal_strlit("ioc");
    reveal_strlit("postOnly");
    reveal_strlit("clientId");
    reveal_strlit("rejectOnPriceBand");
    reveal_strlit("conditionalOrdersOnly");
    reveal_strlit("limitOrdersOnly");
    reveal_strlit("limit");
    reveal_strlit("startTime");
    reveal_strlit("endTime");
    reveal_strlit("triggerPrice");
    reveal_strlit("retryUntilFilled");
    reveal_strlit("orderPrice");
    reveal_strlit("trailValue");
    reveal_strlit("future");
    reveal_strlit("status");
    reveal_strlit("filledSize");
    reveal_strlit("remainingSize");
    reveal_strlit("avgFillPrice");
    reveal_strlit("liquidation");
    reveal_strlit("createdAt");
    reveal_strlit("triggeredAt");
    reveal_strlit("error");
}

/// Whether no field of a body holds a null.
pub open spec fn null_free(fields: Seq<FieldView>) -> bool {
    forall|i: int| 0 <= i < fields.len() ==> !((#[trigger] fields[i]).value is Null)
}

/// The body of `GetOpenOrders` holds the market where the listing is
/// restricted to one, and nothing else.
pub proof fn lemma_get_open_orders_fields(request: GetOpenOrders)
    ensures
        lookup(request.spec_body(), "market"@) == optional_lookup(optional_text(request.market)),
        forall|key: Seq<char>|
            key != "market"@ ==> #[trigger] lookup(
                request.spec_body(),
                key,
            ) == LookupView::Absent,
{
    broadcast use lemma_lookup_empty, lemma_lookup_put, lemma_lookup_put_optional;

    lemma_key_marks();
}

/// The body of `PlaceOrder` holds each of its fields once. The price is there
/// even when the order has none, as an explicit null: a market order without
/// the key is rejected. The client id is there only when the order has one.
pub proof fn lemma_place_order_fields(request: PlaceOrder)
    ensures
        lookup(request.spec_body(), "market"@) == LookupView::Once(text_value(request.market@)),
        lookup(request.spec_body(), "side"@) == LookupView::Once(text_value(request.side.spec_wire_name())),
        lookup(request.spec_body(), "price"@) == LookupView::Once(nullable_number(request.price)),
        lookup(request.spec_body(), "type"@) == LookupView::Once(text_value(request.order_type.spec_wire_name())),
        lookup(request.spec_body(), "size"@) == LookupView::Once(ValueView::Number(request.size)),
        lookup(request.spec_body(), "reduceOnly"@) == LookupView::Once(ValueView::Bool(request.reduce_only)),
        lookup(request.spec_body(), "ioc"@) == LookupView::Once(ValueView::Bool(request.ioc)),
        lookup(request.spec_body(), "postOnly"@) == LookupView::Once(ValueView::Bool(request.post_only)),
        lookup(request.spec_body(), "clientId"@) == optional_lookup(optional_text(request.client_id)),
        lookup(request.spec_body(), "rejectOnPriceBand"@) == LookupView::Once(ValueView::Bool(request.reject_on_price_band)),
        forall|key: Seq<char>|
            key != "market"@ && key != "side"@ && key != "price"@ && key != "type"@ && key != "size"@ && key != "reduceOnly"@ && key != "ioc"@ && key != "postOnly"@ && key != "clientId"@ && key != "rejectOnPriceBand"@ ==> #[trigger] lookup(
                request.spec_body(),
                key,
            ) == LookupView::Absent,
{
    broadcast use lemma_lookup_empty, lemma_lookup_put, lemma_lookup_put_optional;

    lemma_key_marks();
}

/// The body of `ModifyOrder` holds what is to change and nothing else; the
/// identifier goes into the path only.
pub proof fn lemma_modify_order_fields(request: ModifyOrder)
    ensures
        lookup(request.spec_body(), "price"@) == optional_lookup(optional_number(request.price)),
        lookup(request.spec_body(), "size"@) == optional_lookup(optional_number(request.size)),
        lookup(request.spec_body(), "clientId"@) == optional_lookup(optional_text(request.client_id)),
        lookup(request.spec_body(), "id"@) == LookupView::Absent,
        forall|key: Seq<char>|
            key != "price"@ && key != "size"@ && key != "clientId"@ ==> #[trigger] lookup(
                request.spec_body(),
                key,
            ) == LookupView::Absent,
{
    broadcast use lemma_lookup_empty, lemma_lookup_put, lemma_lookup_put_optional;

    lemma_key_marks();
}

/// The body of `GetOrder` is empty: the identifier goes into the path only.
pub proof fn lemma_get_order_fields(request: GetOrder)
    ensures
        lookup(request.spec_body(), "id"@) == LookupView::Absent,
        forall|key: Seq<char>| #[trigger] lookup(request.spec_body(), key) == LookupView::Absent,
{
    broadcast use lemma_lookup_empty, lemma_lookup_put, lemma_lookup_put_optional;

}

/// The body of `CancelOrder` is empty: the identifier goes into the path only.
pub proof fn lemma_cancel_order_fields(request: CancelOrder)
    ensures
        lookup(request.spec_body(), "id"@) == LookupView::Absent,
        forall|key: Seq<char>| #[trigger] lookup(request.spec_body(), key) == LookupView::Absent,
{
    broadcast use lemma_lookup_empty, lemma_lookup_put, lemma_lookup_put_optional;

}

/// The body of `CancelTriggerOrder` is empty: the identifier goes into the path
/// only.
pub proof fn lemma_cancel_trigger_order_fields(request: CancelTriggerOrder)
    ensures
        lookup(request.spec_body(), "id"@) == LookupView::Absent,
        forall|key: Seq<char>| #[trigger] lookup(request.spec_body(), key) == LookupView::Absent,
{
    broadcast use lemma_lookup_empty, lemma_lookup_put, lemma_lookup_put_optional;

}

/// The body of `CancelAllOrder` holds the filters that are set and nothing
/// else.
pub proof fn lemma_cancel_all_order_fields(request: CancelAllOrder)
    ensures
        lookup(request.spec_body(), "market"@) == optional_lookup(optional_text(request.market)),
        lookup(request.spec_body(), "side"@) == optional_lookup(optional_side(request.side)),
        lookup(request.spec_body(), "conditionalOrdersOnly"@) == optional_lookup(optional_flag(request.conditional_orders_only)),
        lookup(request.spec_body(), "limitOrdersOnly"@) == optional_lookup(optional_flag(request.limit_orders_only)),
        forall|key: Seq<char>|
            key != "market"@ && key != "side"@ && key != "conditionalOrdersOnly"@ && key != "limitOrdersOnly"@ ==> #[trigger] lookup(
                request.spec_body(),
                key,
            ) == LookupView::Absent,
{
    broadcast use lemma_lookup_empty, lemma_lookup_put, lemma_lookup_put_optional;

    lemma_key_marks();
}

/// The body of `CancelOrderByClientId` is empty: the client id goes into the
/// path only.
pub proof fn lemma_cancel_order_by_client_id_fields(request: CancelOrderByClientId)
    ensures
        lookup(request.spec_body(), "clientId"@) == LookupView::Absent,
        forall|key: Seq<char>| #[trigger] lookup(request.spec_body(), key) == LookupView::Absent,
{
    broadcast use lemma_lookup_empty, lemma_lookup_put, lemma_lookup_put_optional;

}

/// The body of `GetOrderByClientId` is empty: the client id goes into the path
/// only.
pub proof fn lemma_get_order_by_client_id_fields(request: GetOrderByClientId)
    ensures
        lookup(request.spec_body(), "clientId"@) == LookupView::Absent,
        forall|key: Seq<char>| #[trigger] lookup(request.spec_body(), key) == LookupView::Absent,
{
    broadcast use lemma_lookup_empty, lemma_lookup_put, lemma_lookup_put_optional;

}

/// The body of `GetOrderHistory` holds the filters that are set and nothing
/// else. A time filter travels as a whole number of Unix seconds.
pub proof fn lemma_get_order_history_fields(request: GetOrderHistory)
    ensures
        lookup(request.spec_body(), "market"@) == optional_lookup(optional_text(request.market)),
        lookup(request.spec_body(), "side"@) == optional_lookup(optional_side(request.side)),
        lookup(request.spec_body(), "limit"@) == optional_lookup(optional_count(request.limit)),
        lookup(request.spec_body(), "startTime"@) == optional_lookup(optional_time(request.start_time)),
        lookup(request.spec_body(), "endTime"@) == optional_lookup(optional_time(request.end_time)),
        forall|key: Seq<char>|
            key != "market"@ && key != "side"@ && key != "limit"@ && key != "startTime"@ && key != "endTime"@ ==> #[trigger] lookup(
                request.spec_body(),
                key,
            ) == LookupView::Absent,
{
    broadcast use lemma_lookup_empty, lemma_lookup_put, lemma_lookup_put_optional;

    lemma_key_marks();
}

/// The body of `PlaceTriggerOrder` holds its five required fields once each,
/// and of the optional ones those that are set.
pub proof fn lemma_place_trigger_order_fields(request: PlaceTriggerOrder)
    ensures
        lookup(request.spec_body(), "market"@) == LookupView::Once(text_value(request.market@)),
        lookup(request.spec_body(), "side"@) == LookupView::Once(text_value(request.side.spec_wire_name())),
        lookup(request.spec_body(), "size"@) == LookupView::Once(ValueView::Number(request.size)),
        lookup(request.spec_body(), "type"@) == LookupView::Once(text_value(request.order_type.spec_wire_name())),
        lookup(request.spec_body(), "triggerPrice"@) == LookupView::Once(ValueView::Number(request.trigger_price)),
        lookup(request.spec_body(), "reduceOnly"@) == optional_lookup(optional_flag(request.reduce_only)),
        lookup(request.spec_body(), "retryUntilFilled"@) == optional_lookup(optional_flag(request.retry_until_filled)),
        lookup(request.spec_body(), "orderPrice"@) == optional_lookup(optional_number(request.order_price)),
        lookup(request.spec_body(), "trailValue"@) == optional_lookup(optional_number(request.trail_value)),
        forall|key: Seq<char>|
            key != "market"@ && key != "side"@ && key != "size"@ && key != "type"@ && key != "triggerPrice"@ && key != "reduceOnly"@ && key != "retryUntilFilled"@ && key != "orderPrice"@ && key != "trailValue"@ ==> #[trigger] lookup(
                request.spec_body(),
                key,
            ) == LookupView::Absent,
{
    broadcast use lemma_lookup_empty, lemma_lookup_put, lemma_lookup_put_optional;

    lemma_key_marks();
}

/// The body of `ModifyOrderByClientId` holds what is to change and nothing
/// else; the client id goes into the path only.
pub proof fn lemma_modify_order_by_client_id_fields(request: ModifyOrderByClientId)
    ensures
        lookup(request.spec_body(), "price"@) == optional_lookup(optional_number(request.price)),
        lookup(request.spec_body(), "size"@) == optional_lookup(optional_number(request.size)),
        lookup(request.spec_body(), "clientId"@) == LookupView::Absent,
        forall|key: Seq<char>|
            key != "price"@ && key != "size"@ ==> #[trigger] lookup(
                request.spec_body(),
                key,
            ) == LookupView::Absent,
{
    broadcast use lemma_lookup_empty, lemma_lookup_put, lemma_lookup_put_optional;

    lemma_key_marks();
}

/// A null in the body of `PlaceOrder` is the price of an order that has
/// none: no other field is ever transmitted as a null.
pub proof fn lemma_place_order_null_is_price(request: PlaceOrder, i: int)
    requires
        0 <= i < request.spec_body().len(),
        request.spec_body()[i].value is Null,
    ensures
        request.spec_body()[i].key == "price"@,
        request.price is None,
{
}

/// No field of the body of `GetOpenOrders` is a null: what is absent is left out.
pub proof fn lemma_get_open_orders_null_free(request: GetOpenOrders)
    ensures
        null_free(request.spec_body()),
{
}

/// No field of the body of `ModifyOrder` is a null: what is absent is left out.
pub proof fn lemma_modify_order_null_free(request: ModifyOrder)
    ensures
        null_free(request.spec_body()),
{
}

/// No field of the body of `GetOrder` is a null: what is absent is left out.
pub proof fn lemma_get_order_null_free(request: GetOrder)
    ensures
        null_free(request.spec_body()),
{
}

/// No field of the body of `CancelOrder` is a null: what is absent is left out.
pub proof fn lemma_cancel_order_null_free(request: CancelOrder)
    ensures
        null_free(request.spec_body()),
{
}

/// No field of the body of `CancelTriggerOrder` is a null: what is absent is left out.
pub proof fn lemma_cancel_trigger_order_null_free(request: CancelTriggerOrder)
    ensures
        null_free(request.spec_body()),
{
}

/// No field of the body of `CancelAllOrder` is a null: what is absent is left out.
pub proof fn lemma_cancel_all_order_null_free(request: CancelAllOrder)
    ensures
        null_free(request.spec_body()),
{
}

/// No field of the body of `CancelOrderByClientId` is a null: what is absent is left out.
pub proof fn lemma_cancel_order_by_client_id_null_free(request: CancelOrderByClientId)
    ensures
        null_free(request.spec_body()),
{
}

/// No field of the body of `GetOrderByClientId` is a null: what is absent is left out.
pub proof fn lemma_get_order_by_client_id_null_free(request: GetOrderByClientId)
    ensures
        null_free(request.spec_body()),
{
}

/// No field of the body of `GetOrderHistory` is a null: what is absent is left out.
pub proof fn lemma_get_order_history_null_free(request: GetOrderHistory)
    ensures
        null_free(request.spec_body()),
{
}

/// No field of the body of `PlaceTriggerOrder` is a null: what is absent is left out.
pub proof fn lemma_place_trigger_order_null_free(request: PlaceTriggerOrder)
    ensures
        null_free(request.spec_body()),
{
}

/// No field of the body of `ModifyOrderByClientId` is a null: what is absent is left out.
pub proof fn lemma_modify_order_by_client_id_null_free(request: ModifyOrderByClientId)
    ensures
        null_free(request.spec_body()),
{
}

/// Every operation of the order surface needs an authenticated request.
pub proof fn lemma_every_operation_requires_auth()
    ensures
        GetOpenOrders::spec_requires_auth(),
        PlaceOrder::spec_requires_auth(),
        ModifyOrder::spec_requires_auth(),
        GetOrder::spec_requires_auth(),
        CancelOrder::spec_requires_auth(),
        CancelTriggerOrder::spec_requires_auth(),
        CancelAllOrder::spec_requires_auth(),
        CancelOrderByClientId::spec_requires_auth(),
        GetOrderByClientId::spec_requires_auth(),
        GetOrderHistory::spec_requires_auth(),
        PlaceTriggerOrder::spec_requires_auth(),
        ModifyOrderByClientId::spec_requires_auth(),
{
}

/// Cancelling all orders of one market, with no other filter, transmits the
/// market and nothing else.
pub proof fn lemma_cancel_all_of_market(request: CancelAllOrder)
    requires
        request.market is Some,
        request.side is None,
        request.conditional_orders_only is None,
        request.limit_orders_only is None,
    ensures
        request.spec_body() == seq![
            FieldView { key: "market"@, value: ValueView::Text(request.market->Some_0@) },
        ],
{
    assert(request.spec_body() =~= seq![
        FieldView { key: "market"@, value: ValueView::Text(request.market->Some_0@) },
    ]);
}

/// A history query that sets only the start of the time range transmits that
/// start, as whole Unix seconds, and nothing else.
pub proof fn lemma_history_from_start(request: GetOrderHistory)
    requires
        request.market is None,
        request.side is None,
        request.limit is None,
        request.start_time is Some,
        request.end_time is None,
    ensures
        request.spec_body() == seq![
            FieldView {
                key: "startTime"@,
                value: ValueView::Integer(request.start_time->Some_0.seconds as int),
            },
        ],
{
    assert(request.spec_body() =~= seq![
        FieldView {
            key: "startTime"@,
            value: ValueView::Integer(request.start_time->Some_0.seconds as int),
        },
    ]);
}

} // verus!
