//! Decoding of a response into the shape that its operation declares.

use crate::contract::ResponseKind;
use crate::order_info::{spec_decode, DecodeError, OrderInfo, OrderInfoView};
use crate::wire::Object;
use vstd::prelude::*;

verus! {

/// The result part of a response, as the transport hands it over.
#[derive(Clone, Debug)]
pub enum Payload {
    /// One record.
    Object(Object),
    /// A sequence of records.
    List(Vec<Object>),
    /// A plain text.
    Text(String),
}

/// A decoded response.
#[derive(Clone, Debug)]
pub enum Response {
    Order(OrderInfo),
    OrderList(Vec<OrderInfo>),
    /// The confirmation of a cancel operation: an opaque message.
    Confirmation(String),
}

/// Why a payload is not the response that the operation declares.
#[derive(Clone, Copy, Debug, PartialEq, Eq, Structural)]
pub enum ResponseError {
    /// The payload has another shape than the operation declares.
    Shape,
    /// The payload is a record, and no order.
    Order(DecodeError),
    /// The payload is a sequence, and the record at this index is the first
    /// that is no order.
    Item(usize, DecodeError),
}

/// Whether `orders` is what the records decode to, one by one.
pub open spec fn decodes_to(objects: Seq<Object>, orders: Seq<OrderInfo>) -> bool {
    &&& orders.len() == objects.len()
    &&& forall|i: int|
        0 <= i < objects.len() ==> spec_decode(#[trigger] objects[i]@) == Ok::<
            OrderInfoView,
            DecodeError,
        >(orders[i]@)
}

/// Whether the record at `index` is the first that is no order, and `error`
/// is why.
pub open spec fn fails_first_at(objects: Seq<Object>, index: int, error: DecodeError) -> bool {
    &&& 0 <= index < objects.len()
    &&& spec_decode(objects[index]@) == Err::<OrderInfoView, DecodeError>(error)
    &&& forall|j: int| 0 <= j < index ==> spec_decode(#[trigger] objects[j]@) is Ok
}

/// Whether `decoded` is the outcome of decoding the records in order.
pub open spec fn list_outcome(
    objects: Seq<Object>,
    decoded: Result<Vec<OrderInfo>, (usize, DecodeError)>,
) -> bool {
    match decoded {
        Ok(orders) => decodes_to(objects, orders@),
        Err((index, error)) => fails_first_at(objects, index as int, error),
    }
}

/// Whether `decoded` is the outcome of decoding `payload` as a response of
/// the given kind.
pub open spec fn response_outcome(
    kind: ResponseKind,
    payload: Payload,
    decoded: Result<Response, ResponseError>,
) -> bool {
    match (kind, payload) {
        (ResponseKind::Order, Payload::Object(object)) => match decoded {
            Ok(Response::Order(info)) => spec_decode(object@) == Ok::<OrderInfoView, DecodeError>(
                info@,
            ),
            Err(ResponseError::Order(e)) => spec_decode(object@) == Err::<
                OrderInfoView,
                DecodeError,
            >(e),
            _ => false,
        },
        (ResponseKind::OrderList, Payload::List(objects)) => match decoded {
            Ok(Response::OrderList(orders)) => decodes_to(objects@, orders@),
            Err(ResponseError::Item(index, e)) => fails_first_at(objects@, index as int, e),
            _ => false,
        },
        (ResponseKind::Confirmation, Payload::Text(text)) => match decoded {
            Ok(Response::Confirmation(message)) => message@ == text@,
            _ => false,
        },
        _ => decoded == Err::<Response, ResponseError>(ResponseError::Shape),
    }
}

/// Decodes a sequence of records, stopping at the first that is no order.
pub fn decode_list(objects: &Vec<Object>) -> (decoded: Result<
    Vec<OrderInfo>,
    (usize, DecodeError),
>)
    ensures
        list_outcome(objects@, decoded),
{
    let mut orders: Vec<OrderInfo> = Vec::new();
    let mut i: usize = 0;
    while i < objects.len()
        invariant
            0 <= i <= objects@.len(),
            orders@.len() == i,
            forall|j: int|
                0 <= j < i ==> spec_decode(#[trigger] objects@[j]@) == Ok::<
                    OrderInfoView,
                    DecodeError,
                >(orders@[j]@),
        decreases objects@.len() - i,
    {
        match OrderInfo::decode(&objects[i]) {
            Ok(info) => {
                orders.push(info);
            },
            Err(e) => {
                return Err((i, e));
            },
        }
        i = i + 1;
    }
    Ok(orders)
}

/// Decodes a payload into the shape that the operation declares.
pub fn decode_response(kind: ResponseKind, payload: &Payload) -> (decoded: Result<
    Response,
    ResponseError,
>)
    ensures
        response_outcome(kind, *payload, decoded),
{
    match (kind, payload) {
        (ResponseKind::Order, Payload::Object(object)) => match OrderInfo::decode(object) {
            Ok(info) => Ok(Response::Order(info)),
            Err(e) => Err(ResponseError::Order(e)),
        },
        (ResponseKind::OrderList, Payload::List(objects)) => match decode_list(objects) {
            Ok(orders) => Ok(Response::OrderList(orders)),
            Err((index, e)) => Err(ResponseError::Item(index, e)),
        },
        (ResponseKind::Confirmation, Payload::Text(text)) => Ok(
            Response::Confirmation(text.clone()),
        ),
        _ => Err(ResponseError::Shape),
    }
}

} // verus!
