//! What a payload may leave out or add, and what a response gives back of
//! the order that was placed.

use crate::contract::Request;
use crate::order_info::{
    spec_decode, spec_find_optional, spec_find_required, spec_read_decimal, spec_read_id,
    spec_read_optional_decimal, spec_read_optional_flag, spec_read_optional_text,
    spec_read_order_status, spec_read_order_type, spec_read_side, spec_read_text,
    spec_read_timestamp, DecodeError, OrderField, OrderInfoView,
};
use crate::common::{Id, OrderStatus};
use crate::orders::PlaceOrder;
use crate::presence::{lemma_key_marks, lemma_place_order_fields};
use crate::timestamp::Timestamp;
use crate::wire::{
    lemma_lookup_insert_other, lemma_lookup_put, lookup, nullable_number, optional_lookup,
    optional_text, put, text_value, FieldView, LookupView, ValueView,
};
use vstd::prelude::*;

verus! {

/// Whether a key is that of a field of the order record.
pub open spec fn is_order_key(key: Seq<char>) -> bool {
    exists|field: OrderField| #[trigger] field.spec_key() == key
}

/// What is read of one field depends on the payload only through what a
/// search under the key of that field finds.
proof fn lemma_read_follows_lookup(a: Seq<FieldView>, b: Seq<FieldView>, field: OrderField)
    requires
        lookup(a, field.spec_key()) == lookup(b, field.spec_key()),
    ensures
        spec_find_required(a, field) == spec_find_required(b, field),
        spec_find_optional(a, field) == spec_find_optional(b, field),
        spec_read_id(a, field) == spec_read_id(b, field),
        spec_read_text(a, field) == spec_read_text(b, field),
        spec_read_order_type(a, field) == spec_read_order_type(b, field),
        spec_read_side(a, field) == spec_read_side(b, field),
        spec_read_decimal(a, field) == spec_read_decimal(b, field),
        spec_read_order_status(a, field) == spec_read_order_status(b, field),
        spec_read_timestamp(a, field) == spec_read_timestamp(b, field),
        spec_read_optional_text(a, field) == spec_read_optional_text(b, field),
        spec_read_optional_decimal(a, field) == spec_read_optional_decimal(b, field),
        spec_read_optional_flag(a, field) == spec_read_optional_flag(b, field),
{
}

/// Two payloads in which a search finds the same under the key of every
/// field of the order record decode alike: neither the order of the fields
/// nor any other key matters.
pub proof fn lemma_decode_follows_lookup(a: Seq<FieldView>, b: Seq<FieldView>)
    requires
        forall|field: OrderField|
            lookup(a, #[trigger] field.spec_key()) == lookup(b, field.spec_key()),
    ensures
        spec_decode(a) == spec_decode(b),
{
    lemma_read_follows_lookup(a, b, OrderField::Id);
    lemma_read_follows_lookup(a, b, OrderField::Market);
    lemma_read_follows_lookup(a, b, OrderField::Future);
    lemma_read_follows_lookup(a, b, OrderField::Type);
    lemma_read_follows_lookup(a, b, OrderField::Side);
    lemma_read_follows_lookup(a, b, OrderField::Price);
    lemma_read_follows_lookup(a, b, OrderField::Size);
    lemma_read_follows_lookup(a, b, OrderField::ReduceOnly);
    lemma_read_follows_lookup(a, b, OrderField::Ioc);
    lemma_read_follows_lookup(a, b, OrderField::PostOnly);
    lemma_read_follows_lookup(a, b, OrderField::Status);
    lemma_read_follows_lookup(a, b, OrderField::FilledSize);
    lemma_read_follows_lookup(a, b, OrderField::RemainingSize);
    lemma_read_follows_lookup(a, b, OrderField::AvgFillPrice);
    lemma_read_follows_lookup(a, b, OrderField::Liquidation);
    lemma_read_follows_lookup(a, b, OrderField::CreatedAt);
    lemma_read_follows_lookup(a, b, OrderField::ClientId);
    lemma_read_follows_lookup(a, b, OrderField::RetryUntilFilled);
    lemma_read_follows_lookup(a, b, OrderField::TriggerPrice);
    lemma_read_follows_lookup(a, b, OrderField::OrderPrice);
    lemma_read_follows_lookup(a, b, OrderField::TriggeredAt);
    lemma_read_follows_lookup(a, b, OrderField::Error);
}

/// A field under a key that the order record does not know changes nothing,
/// wherever in the payload it stands: the payload decodes to the same record,
/// or fails with the same error, as without it.
pub proof fn lemma_unknown_field_ignored(fields: Seq<FieldView>, at: int, extra: FieldView)
    requires
        0 <= at <= fields.len(),
        !is_order_key(extra.key),
    ensures
        spec_decode(fields.insert(at, extra)) == spec_decode(fields),
{
    let longer = fields.insert(at, extra);
    assert forall|field: OrderField|
        lookup(longer, #[trigger] field.spec_key()) == lookup(fields, field.spec_key()) by {
        lemma_lookup_insert_other(fields, at, extra, field.spec_key());
    }
    lemma_decode_follows_lookup(longer, fields);
}


/// An optional field that the payload leaves out decodes to `None`.
pub proof fn lemma_missing_optional_is_none(fields: Seq<FieldView>)
    requires
        spec_decode(fields) is Ok,
    ensures
        lookup(fields, OrderField::Future.spec_key()) is Absent ==> spec_decode(
            fields,
        )->Ok_0.future is None,
        lookup(fields, OrderField::Price.spec_key()) is Absent ==> spec_decode(
            fields,
        )->Ok_0.price is None,
        lookup(fields, OrderField::ReduceOnly.spec_key()) is Absent ==> spec_decode(
            fields,
        )->Ok_0.reduce_only is None,
        lookup(fields, OrderField::Ioc.spec_key()) is Absent ==> spec_decode(
            fields,
        )->Ok_0.ioc is None,
        lookup(fields, OrderField::PostOnly.spec_key()) is Absent ==> spec_decode(
            fields,
        )->Ok_0.post_only is None,
        lookup(fields, OrderField::FilledSize.spec_key()) is Absent ==> spec_decode(
            fields,
        )->Ok_0.filled_size is None,
        lookup(fields, OrderField::RemainingSize.spec_key()) is Absent ==> spec_decode(
            fields,
        )->Ok_0.remaining_size is None,
        lookup(fields, OrderField::AvgFillPrice.spec_key()) is Absent ==> spec_decode(
            fields,
        )->Ok_0.avg_fill_price is None,
        lookup(fields, OrderField::Liquidation.spec_key()) is Absent ==> spec_decode(
            fields,
        )->Ok_0.liquidation is None,
        lookup(fields, OrderField::ClientId.spec_key()) is Absent ==> spec_decode(
            fields,
        )->Ok_0.client_id is None,
        lookup(fields, OrderField::RetryUntilFilled.spec_key()) is Absent ==> spec_decode(
            fields,
        )->Ok_0.retry_until_filled is None,
        lookup(fields, OrderField::TriggerPrice.spec_key()) is Absent ==> spec_decode(
            fields,
        )->Ok_0.trigger_price is None,
        lookup(fields, OrderField::OrderPrice.spec_key()) is Absent ==> spec_decode(
            fields,
        )->Ok_0.order_price is None,
        lookup(fields, OrderField::TriggeredAt.spec_key()) is Absent ==> spec_decode(
            fields,
        )->Ok_0.triggered_at is None,
        lookup(fields, OrderField::Error.spec_key()) is Absent ==> spec_decode(
            fields,
        )->Ok_0.error is None,
{
}

/// No payload fails for want of an optional field: the only field that an
/// error calls missing is a required one that the payload lacks.
pub proof fn lemma_only_required_fields_are_missed(fields: Seq<FieldView>, field: OrderField)
    requires
        spec_decode(fields) == Err::<OrderInfoView, DecodeError>(DecodeError::Missing(field)),
    ensures
        !field.spec_is_optional(),
        lookup(fields, field.spec_key()) is Absent,
{
}

/// A payload that holds the seven required fields, each with a value of its
/// kind, and none of the optional ones decodes to a record that holds
/// exactly those seven values.
pub proof fn lemma_required_fields_suffice(fields: Seq<FieldView>)
    requires
        spec_read_id(fields, OrderField::Id) is Ok,
        spec_read_text(fields, OrderField::Market) is Ok,
        lookup(fields, OrderField::Future.spec_key()) is Absent,
        spec_read_order_type(fields, OrderField::Type) is Ok,
        spec_read_side(fields, OrderField::Side) is Ok,
        lookup(fields, OrderField::Price.spec_key()) is Absent,
        spec_read_decimal(fields, OrderField::Size) is Ok,
        lookup(fields, OrderField::ReduceOnly.spec_key()) is Absent,
        lookup(fields, OrderField::Ioc.spec_key()) is Absent,
        lookup(fields, OrderField::PostOnly.spec_key()) is Absent,
        spec_read_order_status(fields, OrderField::Status) is Ok,
        lookup(fields, OrderField::FilledSize.spec_key()) is Absent,
        lookup(fields, OrderField::RemainingSize.spec_key()) is Absent,
        lookup(fields, OrderField::AvgFillPrice.spec_key()) is Absent,
        lookup(fields, OrderField::Liquidation.spec_key()) is Absent,
        spec_read_timestamp(fields, OrderField::CreatedAt) is Ok,
        lookup(fields, OrderField::ClientId.spec_key()) is Absent,
        lookup(fields, OrderField::RetryUntilFilled.spec_key()) is Absent,
        lookup(fields, OrderField::TriggerPrice.spec_key()) is Absent,
        lookup(fields, OrderField::OrderPrice.spec_key()) is Absent,
        lookup(fields, OrderField::TriggeredAt.spec_key()) is Absent,
        lookup(fields, OrderField::Error.spec_key()) is Absent,
    ensures
        spec_decode(fields) == Ok::<OrderInfoView, DecodeError>(
            OrderInfoView {
                id: spec_read_id(fields, OrderField::Id)->Ok_0,
                market: spec_read_text(fields, OrderField::Market)->Ok_0,
                future: None,
                order_type: spec_read_order_type(fields, OrderField::Type)->Ok_0,
                side: spec_read_side(fields, OrderField::Side)->Ok_0,
                price: None,
                size: spec_read_decimal(fields, OrderField::Size)->Ok_0,
                reduce_only: None,
                ioc: None,
                post_only: None,
                status: spec_read_order_status(fields, OrderField::Status)->Ok_0,
                filled_size: None,
                remaining_size: None,
                avg_fill_price: None,
                liquidation: None,
                created_at: spec_read_timestamp(fields, OrderField::CreatedAt)->Ok_0,
                client_id: None,
                retry_until_filled: None,
                trigger_price: None,
                order_price: None,
                triggered_at: None,
                error: None,
            },
        ),
{
}

/// A response that repeats the market, the side, the size and the type that
/// a `PlaceOrder` transmitted decodes, where it decodes at all, to a record
/// with the market, side, size and type of that order.
pub proof fn lemma_place_order_round_trip(request: PlaceOrder, response: Seq<FieldView>)
    requires
        lookup(response, "market"@) == lookup(request.spec_body(), "market"@),
        lookup(response, "side"@) == lookup(request.spec_body(), "side"@),
        lookup(response, "size"@) == lookup(request.spec_body(), "size"@),
        lookup(response, "type"@) == lookup(request.spec_body(), "type"@),
        spec_decode(response) is Ok,
    ensures
        spec_decode(response)->Ok_0.market == request.market@,
        spec_decode(response)->Ok_0.side == request.side,
        spec_decode(response)->Ok_0.size == request.size,
        spec_decode(response)->Ok_0.order_type == request.order_type,
{
    lemma_place_order_fields(request);
    request.side.lemma_name_round_trip();
    request.order_type.lemma_name_round_trip();
}

/// The response of an exchange that accepts a `PlaceOrder` as it stands: the
/// fields of its body, and with them the identifier, the status and the
/// creation time that the exchange assigns.
pub open spec fn accepted(
    request: PlaceOrder,
    id: Id,
    status: OrderStatus,
    created_at: Seq<char>,
) -> Seq<FieldView> {
    let response = request.spec_body();
    let response = put(response, "id"@, ValueView::Integer(id as int));
    let response = put(response, "status"@, text_value(status.spec_wire_name()));
    put(response, "createdAt"@, text_value(created_at))
}

/// What a search finds in an accepted order under the key of each field of
/// the order record.
proof fn lemma_accepted_lookups(
    request: PlaceOrder,
    id: Id,
    status: OrderStatus,
    created_at: Seq<char>,
)
    ensures
        ({
            let response = accepted(request, id, status, created_at);
            &&& lookup(response, "id"@) == LookupView::Once(ValueView::Integer(id as int))
            &&& lookup(response, "market"@) == LookupView::Once(text_value(request.market@))
            &&& lookup(response, "future"@) == LookupView::Absent
            &&& lookup(response, "type"@) == LookupView::Once(
                text_value(request.order_type.spec_wire_name()),
            )
            &&& lookup(response, "side"@) == LookupView::Once(
                text_value(request.side.spec_wire_name()),
            )
            &&& lookup(response, "price"@) == LookupView::Once(nullable_number(request.price))
            &&& lookup(response, "size"@) == LookupView::Once(ValueView::Number(request.size))
            &&& lookup(response, "reduceOnly"@) == LookupView::Once(
                ValueView::Bool(request.reduce_only),
            )
            &&& lookup(response, "ioc"@) == LookupView::Once(ValueView::Bool(request.ioc))
            &&& lookup(response, "postOnly"@) == LookupView::Once(
                ValueView::Bool(request.post_only),
            )
            &&& lookup(response, "status"@) == LookupView::Once(
                text_value(status.spec_wire_name()),
            )
            &&& lookup(response, "filledSize"@) == LookupView::Absent
            &&& lookup(response, "remainingSize"@) == LookupView::Absent
            &&& lookup(response, "avgFillPrice"@) == LookupView::Absent
            &&& lookup(response, "liquidation"@) == LookupView::Absent
            &&& lookup(response, "createdAt"@) == LookupView::Once(text_value(created_at))
            &&& lookup(response, "clientId"@) == optional_lookup(
                optional_text(request.client_id),
            )
            &&& lookup(response, "retryUntilFilled"@) == LookupView::Absent
            &&& lookup(response, "triggerPrice"@) == LookupView::Absent
            &&& lookup(response, "orderPrice"@) == LookupView::Absent
            &&& lookup(response, "triggeredAt"@) == LookupView::Absent
            &&& lookup(response, "error"@) == LookupView::Absent
        }),
{
    broadcast use lemma_lookup_put;

    lemma_key_marks();
    lemma_place_order_fields(request);
}

/// Encoding and decoding fit together: the response that repeats the body of
/// a `PlaceOrder` decodes, and the record holds the order as it was placed.
/// An absent price comes back absent, and the key that the record does not
/// know, `rejectOnPriceBand`, is passed over.
pub proof fn lemma_accepted_order_decodes(
    request: PlaceOrder,
    id: Id,
    status: OrderStatus,
    created_at: Seq<char>,
)
    requires
        Timestamp::spec_parse(created_at) is Some,
    ensures
        spec_decode(accepted(request, id, status, created_at)) == Ok::<OrderInfoView, DecodeError>(
            OrderInfoView {
                id,
                market: request.market@,
                future: None,
                order_type: request.order_type,
                side: request.side,
                price: request.price,
                size: request.size,
                reduce_only: Some(request.reduce_only),
                ioc: Some(request.ioc),
                post_only: Some(request.post_only),
                status,
                filled_size: None,
                remaining_size: None,
                avg_fill_price: None,
                liquidation: None,
                created_at: Timestamp::spec_parse(created_at)->Some_0,
                client_id: match request.client_id {
                    Some(c) => Some(c@),
                    None => None,
                },
                retry_until_filled: None,
                trigger_price: None,
                order_price: None,
                triggered_at: None,
                error: None,
            },
        ),
{
    lemma_accepted_lookups(request, id, status, created_at);
    request.side.lemma_name_round_trip();
    request.order_type.lemma_name_round_trip();
    status.lemma_name_round_trip();
}

} // verus!
