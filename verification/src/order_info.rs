//! The order record that the exchange returns, and its decoding.
//!
//! A payload is decoded field by field, in the order in which the record
//! declares them, under the lower-camel-case key of each. An optional field
//! that is missing, or present as an explicit null, decodes to `None`. A key
//! that the record does not know is passed over. A required field that is
//! missing, a field whose value has the wrong shape, and a known key that
//! occurs twice are errors; the first field that cannot be read names the
//! error.

use crate::common::{Id, OrderStatus, OrderType, Side};
use crate::timestamp::Timestamp;
use crate::wire::{lookup, FieldView, Lookup, LookupView, Object, Value, ValueView};
use rust_decimal::Decimal;
use vstd::prelude::*;

verus! {

/// The fields of an order record.
#[derive(Clone, Copy, Debug, PartialEq, Eq, Structural)]
pub enum OrderField {
    Id,
    Market,
    Future,
    Type,
    Side,
    Price,
    Size,
    ReduceOnly,
    Ioc,
    PostOnly,
    Status,
    FilledSize,
    RemainingSize,
    AvgFillPrice,
    Liquidation,
    CreatedAt,
    ClientId,
    RetryUntilFilled,
    TriggerPrice,
    OrderPrice,
    TriggeredAt,
    Error,
}

impl OrderField {
    /// The lower-camel-case key under which the field travels.
    pub open spec fn spec_key(self) -> Seq<char> {
        match self {
            OrderField::Id => "id"@,
            OrderField::Market => "market"@,
            OrderField::Future => "future"@,
            OrderField::Type => "type"@,
            OrderField::Side => "side"@,
            OrderField::Price => "price"@,
            OrderField::Size => "size"@,
            OrderField::ReduceOnly => "reduceOnly"@,
            OrderField::Ioc => "ioc"@,
            OrderField::PostOnly => "postOnly"@,
            OrderField::Status => "status"@,
            OrderField::FilledSize => "filledSize"@,
            OrderField::RemainingSize => "remainingSize"@,
            OrderField::AvgFillPrice => "avgFillPrice"@,
            OrderField::Liquidation => "liquidation"@,
            OrderField::CreatedAt => "createdAt"@,
            OrderField::ClientId => "clientId"@,
            OrderField::RetryUntilFilled => "retryUntilFilled"@,
            OrderField::TriggerPrice => "triggerPrice"@,
            OrderField::OrderPrice => "orderPrice"@,
            OrderField::TriggeredAt => "triggeredAt"@,
            OrderField::Error => "error"@,
        }
    }

    /// Whether a payload may leave the field out.
    pub open spec fn spec_is_optional(self) -> bool {
        match self {
            OrderField::Id => false,
            OrderField::Market => false,
            OrderField::Future => true,
            OrderField::Type => false,
            OrderField::Side => false,
            OrderField::Price => true,
            OrderField::Size => false,
            OrderField::ReduceOnly => true,
            OrderField::Ioc => true,
            OrderField::PostOnly => true,
            OrderField::Status => false,
            OrderField::FilledSize => true,
            OrderField::RemainingSize => true,
            OrderField::AvgFillPrice => true,
            OrderField::Liquidation => true,
            OrderField::CreatedAt => false,
            OrderField::ClientId => true,
            OrderField::RetryUntilFilled => true,
            OrderField::TriggerPrice => true,
            OrderField::OrderPrice => true,
            OrderField::TriggeredAt => true,
            OrderField::Error => true,
        }
    }

    /// The key under which the field travels.
    pub fn key(self) -> (key: &'static str)
        ensures
            key@ == self.spec_key(),
    {
        match self {
            OrderField::Id => "id",
            OrderField::Market => "market",
            OrderField::Future => "future",
            OrderField::Type => "type",
            OrderField::Side => "side",
            OrderField::Price => "price",
            OrderField::Size => "size",
            OrderField::ReduceOnly => "reduceOnly",
            OrderField::Ioc => "ioc",
            OrderField::PostOnly => "postOnly",
            OrderField::Status => "status",
            OrderField::FilledSize => "filledSize",
            OrderField::RemainingSize => "remainingSize",
            OrderField::AvgFillPrice => "avgFillPrice",
            OrderField::Liquidation => "liquidation",
            OrderField::CreatedAt => "createdAt",
            OrderField::ClientId => "clientId",
            OrderField::RetryUntilFilled => "retryUntilFilled",
            OrderField::TriggerPrice => "triggerPrice",
            OrderField::OrderPrice => "orderPrice",
            OrderField::TriggeredAt => "triggeredAt",
            OrderField::Error => "error",
        }
    }

    /// Whether a payload may leave the field out.
    pub fn is_optional(self) -> (optional: bool)
        ensures
            optional == self.spec_is_optional(),
    {
        match self {
            OrderField::Id => false,
            OrderField::Market => false,
            OrderField::Future => true,
            OrderField::Type => false,
            OrderField::Side => false,
            OrderField::Price => true,
            OrderField::Size => false,
            OrderField::ReduceOnly => true,
            OrderField::Ioc => true,
            OrderField::PostOnly => true,
            OrderField::Status => false,
            OrderField::FilledSize => true,
            OrderField::RemainingSize => true,
            OrderField::AvgFillPrice => true,
            OrderField::Liquidation => true,
            OrderField::CreatedAt => false,
            OrderField::ClientId => true,
            OrderField::RetryUntilFilled => true,
            OrderField::TriggerPrice => true,
            OrderField::OrderPrice => true,
            OrderField::TriggeredAt => true,
            OrderField::Error => true,
        }
    }
}

/// Why a payload is no order record.
#[derive(Clone, Copy, Debug, PartialEq, Eq, Structural)]
pub enum DecodeError {
    /// A required field is not in the payload.
    Missing(OrderField),
    /// The value of a field has the wrong shape, or is a null where the
    /// field is required.
    Invalid(OrderField),
    /// The key of a field occurs more than once.
    Repeated(OrderField),
}

/// The exchange's representation of an order.
#[derive(Clone, Debug)]
pub struct OrderInfo {
    pub id: Id,
    pub market: String,
    pub future: Option<String>,
    pub order_type: OrderType,
    pub side: Side,
    /// Absent on a fresh market order; afterwards the reference price of its
    /// fills.
    pub price: Option<Decimal>,
    pub size: Decimal,
    pub reduce_only: Option<bool>,
    pub ioc: Option<bool>,
    pub post_only: Option<bool>,
    pub status: OrderStatus,
    pub filled_size: Option<Decimal>,
    pub remaining_size: Option<Decimal>,
    pub avg_fill_price: Option<Decimal>,
    pub liquidation: Option<bool>,
    pub created_at: Timestamp,
    pub client_id: Option<String>,
    pub retry_until_filled: Option<bool>,
    /// Present on trigger orders only.
    pub trigger_price: Option<Decimal>,
    /// Present on trigger orders only.
    pub order_price: Option<Decimal>,
    pub triggered_at: Option<String>,
    /// Set when the exchange rejected a triggered order. This is data: the
    /// caller inspects it.
    pub error: Option<String>,
}

/// The mathematical content of an `OrderInfo`.
pub struct OrderInfoView {
    pub id: Id,
    pub market: Seq<char>,
    pub future: Option<Seq<char>>,
    pub order_type: OrderType,
    pub side: Side,
    pub price: Option<Decimal>,
    pub size: Decimal,
    pub reduce_only: Option<bool>,
    pub ioc: Option<bool>,
    pub post_only: Option<bool>,
    pub status: OrderStatus,
    pub filled_size: Option<Decimal>,
    pub remaining_size: Option<Decimal>,
    pub avg_fill_price: Option<Decimal>,
    pub liquidation: Option<bool>,
    pub created_at: Timestamp,
    pub client_id: Option<Seq<char>>,
    pub retry_until_filled: Option<bool>,
    pub trigger_price: Option<Decimal>,
    pub order_price: Option<Decimal>,
    pub triggered_at: Option<Seq<char>>,
    pub error: Option<Seq<char>>,
}

impl View for OrderInfo {
    type V = OrderInfoView;

    open spec fn view(&self) -> OrderInfoView {
        OrderInfoView {
            id: self.id,
            market: self.market@,
            future: crate::wire::owned_text_view(self.future),
            order_type: self.order_type,
            side: self.side,
            price: self.price,
            size: self.size,
            reduce_only: self.reduce_only,
            ioc: self.ioc,
            post_only: self.post_only,
            status: self.status,
            filled_size: self.filled_size,
            remaining_size: self.remaining_size,
            avg_fill_price: self.avg_fill_price,
            liquidation: self.liquidation,
            created_at: self.created_at,
            client_id: crate::wire::owned_text_view(self.client_id),
            retry_until_filled: self.retry_until_filled,
            trigger_price: self.trigger_price,
            order_price: self.order_price,
            triggered_at: crate::wire::owned_text_view(self.triggered_at),
            error: crate::wire::owned_text_view(self.error),
        }
    }
}

/// The one value of a required field.
pub open spec fn spec_find_required(fields: Seq<FieldView>, field: OrderField) -> Result<
    ValueView,
    DecodeError,
> {
    match lookup(fields, field.spec_key()) {
        LookupView::Absent => Err(DecodeError::Missing(field)),
        LookupView::Repeated => Err(DecodeError::Repeated(field)),
        LookupView::Once(v) => Ok(v),
    }
}

/// The one value of an optional field; none where the field is missing or an
/// explicit null.
pub open spec fn spec_find_optional(fields: Seq<FieldView>, field: OrderField) -> Result<
    Option<ValueView>,
    DecodeError,
> {
    match lookup(fields, field.spec_key()) {
        LookupView::Absent => Ok(None),
        LookupView::Repeated => Err(DecodeError::Repeated(field)),
        LookupView::Once(v) => if v is Null {
            Ok(None)
        } else {
            Ok(Some(v))
        },
    }
}

/// A converted value, or the error of a value that did not convert.
pub open spec fn spec_accept<T>(converted: Option<T>, field: OrderField) -> Result<
    T,
    DecodeError,
> {
    match converted {
        Some(t) => Ok(t),
        None => Err(DecodeError::Invalid(field)),
    }
}

/// What a payload holds in a required field that is an identifier.
pub open spec fn spec_read_id(fields: Seq<FieldView>, field: OrderField) -> Result<
    Id,
    DecodeError,
> {
    match spec_find_required(fields, field) {
        Err(e) => Err(e),
        Ok(v) => spec_accept(v.as_id(), field),
    }
}

/// What a payload holds in a required field that is a text.
pub open spec fn spec_read_text(fields: Seq<FieldView>, field: OrderField) -> Result<
    Seq<char>,
    DecodeError,
> {
    match spec_find_required(fields, field) {
        Err(e) => Err(e),
        Ok(v) => spec_accept(v.as_text(), field),
    }
}

/// What a payload holds in a required field that is an order type.
pub open spec fn spec_read_order_type(fields: Seq<FieldView>, field: OrderField) -> Result<
    OrderType,
    DecodeError,
> {
    match spec_find_required(fields, field) {
        Err(e) => Err(e),
        Ok(v) => spec_accept(v.as_order_type(), field),
    }
}

/// What a payload holds in a required field that is a side.
pub open spec fn spec_read_side(fields: Seq<FieldView>, field: OrderField) -> Result<
    Side,
    DecodeError,
> {
    match spec_find_required(fields, field) {
        Err(e) => Err(e),
        Ok(v) => spec_accept(v.as_side(), field),
    }
}

/// What a payload holds in a required field that is a decimal.
pub open spec fn spec_read_decimal(fields: Seq<FieldView>, field: OrderField) -> Result<
    Decimal,
    DecodeError,
> {
    match spec_find_required(fields, field) {
        Err(e) => Err(e),
        Ok(v) => spec_accept(v.as_decimal(), field),
    }
}

/// What a payload holds in a required field that is an order status.
pub open spec fn spec_read_order_status(fields: Seq<FieldView>, field: OrderField) -> Result<
    OrderStatus,
    DecodeError,
> {
    match spec_find_required(fields, field) {
        Err(e) => Err(e),
        Ok(v) => spec_accept(v.as_order_status(), field),
    }
}

/// What a payload holds in a required field that is a point in time.
pub open spec fn spec_read_timestamp(fields: Seq<FieldView>, field: OrderField) -> Result<
    Timestamp,
    DecodeError,
> {
    match spec_find_required(fields, field) {
        Err(e) => Err(e),
        Ok(v) => spec_accept(v.as_timestamp(), field),
    }
}

/// What a payload holds in an optional field that is a text.
pub open spec fn spec_read_optional_text(fields: Seq<FieldView>, field: OrderField) -> Result<
    Option<Seq<char>>,
    DecodeError,
> {
    match spec_find_optional(fields, field) {
        Err(e) => Err(e),
        Ok(None) => Ok(None),
        Ok(Some(v)) => match v.as_text() {
            Some(t) => Ok(Some(t)),
            None => Err(DecodeError::Invalid(field)),
        },
    }
}

/// What a payload holds in an optional field that is a decimal.
pub open spec fn spec_read_optional_decimal(fields: Seq<FieldView>, field: OrderField) -> Result<
    Option<Decimal>,
    DecodeError,
> {
    match spec_find_optional(fields, field) {
        Err(e) => Err(e),
        Ok(None) => Ok(None),
        Ok(Some(v)) => match v.as_decimal() {
            Some(t) => Ok(Some(t)),
            None => Err(DecodeError::Invalid(field)),
        },
    }
}

/// What a payload holds in an optional field that is a flag.
pub open spec fn spec_read_optional_flag(fields: Seq<FieldView>, field: OrderField) -> Result<
    Option<bool>,
    DecodeError,
> {
    match spec_find_optional(fields, field) {
        Err(e) => Err(e),
        Ok(None) => Ok(None),
        Ok(Some(v)) => match v.as_flag() {
            Some(t) => Ok(Some(t)),
            None => Err(DecodeError::Invalid(field)),
        },
    }
}

fn find_required<'a>(object: &'a Object, field: OrderField) -> (found: Result<
    &'a Value,
    DecodeError,
>)
    ensures
        match found {
            Ok(v) => spec_find_required(object@, field) == Ok::<ValueView, DecodeError>(v@),
            Err(e) => spec_find_required(object@, field) == Err::<ValueView, DecodeError>(e),
        },
{
    match object.find(field.key()) {
        Lookup::Absent => Err(DecodeError::Missing(field)),
        Lookup::Repeated => Err(DecodeError::Repeated(field)),
        Lookup::Once(v) => Ok(v),
    }
}

fn find_optional<'a>(object: &'a Object, field: OrderField) -> (found: Result<
    Option<&'a Value>,
    DecodeError,
>)
    ensures
        match found {
            Ok(Some(v)) => spec_find_optional(object@, field) == Ok::<
                Option<ValueView>,
                DecodeError,
            >(Some(v@)),
            Ok(None) => spec_find_optional(object@, field) == Ok::<
                Option<ValueView>,
                DecodeError,
            >(None),
            Err(e) => spec_find_optional(object@, field) == Err::<Option<ValueView>, DecodeError>(
                e,
            ),
        },
{
    match object.find(field.key()) {
        Lookup::Absent => Ok(None),
        Lookup::Repeated => Err(DecodeError::Repeated(field)),
        Lookup::Once(v) => match v {
            Value::Null => Ok(None),
            _ => Ok(Some(v)),
        },
    }
}

fn read_id(object: &Object, field: OrderField) -> (read: Result<Id, DecodeError>)
    ensures
        read == spec_read_id(object@, field),
{
    match find_required(object, field) {
        Err(e) => Err(e),
        Ok(v) => match v.as_id() {
            Some(t) => Ok(t),
            None => Err(DecodeError::Invalid(field)),
        },
    }
}

fn read_text(object: &Object, field: OrderField) -> (read: Result<String, DecodeError>)
    ensures
        match read {
            Ok(t) => spec_read_text(object@, field) == Ok::<Seq<char>, DecodeError>(t@),
            Err(e) => spec_read_text(object@, field) == Err::<Seq<char>, DecodeError>(e),
        },
{
    match find_required(object, field) {
        Err(e) => Err(e),
        Ok(v) => match v.as_text() {
            Some(t) => Ok(t),
            None => Err(DecodeError::Invalid(field)),
        },
    }
}

fn read_order_type(object: &Object, field: OrderField) -> (read: Result<OrderType, DecodeError>)
    ensures
        read == spec_read_order_type(object@, field),
{
    match find_required(object, field) {
        Err(e) => Err(e),
        Ok(v) => match v.as_order_type() {
            Some(t) => Ok(t),
            None => Err(DecodeError::Invalid(field)),
        },
    }
}

fn read_side(object: &Object, field: OrderField) -> (read: Result<Side, DecodeError>)
    ensures
        read == spec_read_side(object@, field),
{
    match find_required(object, field) {
        Err(e) => Err(e),
        Ok(v) => match v.as_side() {
            Some(t) => Ok(t),
            None => Err(DecodeError::Invalid(field)),
        },
    }
}

fn read_decimal(object: &Object, field: OrderField) -> (read: Result<Decimal, DecodeError>)
    ensures
        read == spec_read_decimal(object@, field),
{
    match find_required(object, field) {
        Err(e) => Err(e),
        Ok(v) => match v.as_decimal() {
            Some(t) => Ok(t),
            None => Err(DecodeError::Invalid(field)),
        },
    }
}

fn read_order_status(object: &Object, field: OrderField) -> (read: Result<OrderStatus, DecodeError>)
    ensures
        read == spec_read_order_status(object@, field),
{
    match find_required(object, field) {
        Err(e) => Err(e),
        Ok(v) => match v.as_order_status() {
            Some(t) => Ok(t),
            None => Err(DecodeError::Invalid(field)),
        },
    }
}

fn read_timestamp(object: &Object, field: OrderField) -> (read: Result<Timestamp, DecodeError>)
    ensures
        read == spec_read_timestamp(object@, field),
{
    match find_required(object, field) {
        Err(e) => Err(e),
        Ok(v) => match v.as_timestamp() {
            Some(t) => Ok(t),
            None => Err(DecodeError::Invalid(field)),
        },
    }
}

fn read_optional_text(object: &Object, field: OrderField) -> (read: Result<
    Option<String>,
    DecodeError,
>)
    ensures
        match read {
            Ok(t) => spec_read_optional_text(object@, field) == Ok::<Option<Seq<char>>, DecodeError>(
                crate::wire::owned_text_view(t),
            ),
            Err(e) => spec_read_optional_text(object@, field) == Err::<Option<Seq<char>>, DecodeError>(e),
        },
{
    match find_optional(object, field) {
        Err(e) => Err(e),
        Ok(None) => Ok(None),
        Ok(Some(v)) => match v.as_text() {
            Some(t) => Ok(Some(t)),
            None => Err(DecodeError::Invalid(field)),
        },
    }
}

fn read_optional_decimal(object: &Object, field: OrderField) -> (read: Result<
    Option<Decimal>,
    DecodeError,
>)
    ensures
        read == spec_read_optional_decimal(object@, field),
{
    match find_optional(object, field) {
        Err(e) => Err(e),
        Ok(None) => Ok(None),
        Ok(Some(v)) => match v.as_decimal() {
            Some(t) => Ok(Some(t)),
            None => Err(DecodeError::Invalid(field)),
        },
    }
}

fn read_optional_flag(object: &Object, field: OrderField) -> (read: Result<
    Option<bool>,
    DecodeError,
>)
    ensures
        read == spec_read_optional_flag(object@, field),
{
    match find_optional(object, field) {
        Err(e) => Err(e),
        Ok(None) => Ok(None),
        Ok(Some(v)) => match v.as_flag() {
            Some(t) => Ok(Some(t)),
            None => Err(DecodeError::Invalid(field)),
        },
    }
}

/// The order record that a payload stands for, or the error of the first
/// field, in declaration order, that cannot be read.
pub open spec fn spec_decode(fields: Seq<FieldView>) -> Result<OrderInfoView, DecodeError> {
    let id = spec_read_id(fields, OrderField::Id);
    let market = spec_read_text(fields, OrderField::Market);
    let future = spec_read_optional_text(fields, OrderField::Future);
    let order_type = spec_read_order_type(fields, OrderField::Type);
    let side = spec_read_side(fields, OrderField::Side);
    let price = spec_read_optional_decimal(fields, OrderField::Price);
    let size = spec_read_decimal(fields, OrderField::Size);
    let reduce_only = spec_read_optional_flag(fields, OrderField::ReduceOnly);
    let ioc = spec_read_optional_flag(fields, OrderField::Ioc);
    let post_only = spec_read_optional_flag(fields, OrderField::PostOnly);
    let status = spec_read_order_status(fields, OrderField::Status);
    let filled_size = spec_read_optional_decimal(fields, OrderField::FilledSize);
    let remaining_size = spec_read_optional_decimal(fields, OrderField::RemainingSize);
    let avg_fill_price = spec_read_optional_decimal(fields, OrderField::AvgFillPrice);
    let liquidation = spec_read_optional_flag(fields, OrderField::Liquidation);
    let created_at = spec_read_timestamp(fields, OrderField::CreatedAt);
    let client_id = spec_read_optional_text(fields, OrderField::ClientId);
    let retry_until_filled = spec_read_optional_flag(fields, OrderField::RetryUntilFilled);
    let trigger_price = spec_read_optional_decimal(fields, OrderField::TriggerPrice);
    let order_price = spec_read_optional_decimal(fields, OrderField::OrderPrice);
    let triggered_at = spec_read_optional_text(fields, OrderField::TriggeredAt);
    let error = spec_read_optional_text(fields, OrderField::Error);
    if id is Err {
        Err(id->Err_0)
    } else if market is Err {
        Err(market->Err_0)
    } else if future is Err {
        Err(future->Err_0)
    } else if order_type is Err {
        Err(order_type->Err_0)
    } else if side is Err {
        Err(side->Err_0)
    } else if price is Err {
        Err(price->Err_0)
    } else if size is Err {
        Err(size->Err_0)
    } else if reduce_only is Err {
        Err(reduce_only->Err_0)
    } else if ioc is Err {
        Err(ioc->Err_0)
    } else if post_only is Err {
        Err(post_only->Err_0)
    } else if status is Err {
        Err(status->Err_0)
    } else if filled_size is Err {
        Err(filled_size->Err_0)
    } else if remaining_size is Err {
        Err(remaining_size->Err_0)
    } else if avg_fill_price is Err {
        Err(avg_fill_price->Err_0)
    } else if liquidation is Err {
        Err(liquidation->Err_0)
    } else if created_at is Err {
        Err(created_at->Err_0)
    } else if client_id is Err {
        Err(client_id->Err_0)
    } else if retry_until_filled is Err {
        Err(retry_until_filled->Err_0)
    } else if trigger_price is Err {
        Err(trigger_price->Err_0)
    } else if order_price is Err {
        Err(order_price->Err_0)
    } else if triggered_at is Err {
        Err(triggered_at->Err_0)
    } else if error is Err {
        Err(error->Err_0)
    } else {
        Ok(
            OrderInfoView {
                id: id->Ok_0,
                market: market->Ok_0,
                future: future->Ok_0,
                order_type: order_type->Ok_0,
                side: side->Ok_0,
                price: price->Ok_0,
                size: size->Ok_0,
                reduce_only: reduce_only->Ok_0,
                ioc: ioc->Ok_0,
                post_only: post_only->Ok_0,
                status: status->Ok_0,
                filled_size: filled_size->Ok_0,
                remaining_size: remaining_size->Ok_0,
                avg_fill_price: avg_fill_price->Ok_0,
                liquidation: liquidation->Ok_0,
                created_at: created_at->Ok_0,
                client_id: client_id->Ok_0,
                retry_until_filled: retry_until_filled->Ok_0,
                trigger_price: trigger_price->Ok_0,
                order_price: order_price->Ok_0,
                triggered_at: triggered_at->Ok_0,
                error: error->Ok_0,
            },
        )
    }
}

impl OrderInfo {
    /// Decodes one order record from a payload.
    pub fn decode(object: &Object) -> (decoded: Result<OrderInfo, DecodeError>)
        ensures
            match decoded {
                Ok(info) => spec_decode(object@) == Ok::<OrderInfoView, DecodeError>(info@),
                Err(e) => spec_decode(object@) == Err::<OrderInfoView, DecodeError>(e),
            },
    {
        let id = match read_id(object, OrderField::Id) {
            Ok(v) => v,
            Err(e) => return Err(e),
        };
        let market = match read_text(object, OrderField::Market) {
            Ok(v) => v,
            Err(e) => return Err(e),
        };
        let future = match read_optional_text(object, OrderField::Future) {
            Ok(v) => v,
            Err(e) => return Err(e),
        };
        let order_type = match read_order_type(object, OrderField::Type) {
            Ok(v) => v,
            Err(e) => return Err(e),
        };
        let side = match read_side(object, OrderField::Side) {
            Ok(v) => v,
            Err(e) => return Err(e),
        };
        let price = match read_optional_decimal(object, OrderField::Price) {
            Ok(v) => v,
            Err(e) => return Err(e),
        };
        let size = match read_decimal(object, OrderField::Size) {
            Ok(v) => v,
            Err(e) => return Err(e),
        };
        let reduce_only = match read_optional_flag(object, OrderField::ReduceOnly) {
            Ok(v) => v,
            Err(e) => return Err(e),
        };
        let ioc = match read_optional_flag(object, OrderField::Ioc) {
            Ok(v) => v,
            Err(e) => return Err(e),
        };
        let post_only = match read_optional_flag(object, OrderField::PostOnly) {
            Ok(v) => v,
            Err(e) => return Err(e),
        };
        let status = match read_order_status(object, OrderField::Status) {
            Ok(v) => v,
            Err(e) => return Err(e),
        };
        let filled_size = match read_optional_decimal(object, OrderField::FilledSize) {
            Ok(v) => v,
            Err(e) => return Err(e),
        };
        let remaining_size = match read_optional_decimal(object, OrderField::RemainingSize) {
            Ok(v) => v,
            Err(e) => return Err(e),
        };
        let avg_fill_price = match read_optional_decimal(object, OrderField::AvgFillPrice) {
            Ok(v) => v,
            Err(e) => return Err(e),
        };
        let liquidation = match read_optional_flag(object, OrderField::Liquidation) {
            Ok(v) => v,
            Err(e) => return Err(e),
        };
        let created_at = match read_timestamp(object, OrderField::CreatedAt) {
            Ok(v) => v,
            Err(e) => return Err(e),
        };
        let client_id = match read_optional_text(object, OrderField::ClientId) {
            Ok(v) => v,
            Err(e) => return Err(e),
        };
        let retry_until_filled = match read_optional_flag(object, OrderField::RetryUntilFilled) {
            Ok(v) => v,
            Err(e) => return Err(e),
        };
        let trigger_price = match read_optional_decimal(object, OrderField::TriggerPrice) {
            Ok(v) => v,
            Err(e) => return Err(e),
        };
        let order_price = match read_optional_decimal(object, OrderField::OrderPrice) {
            Ok(v) => v,
            Err(e) => return Err(e),
        };
        let triggered_at = match read_optional_text(object, OrderField::TriggeredAt) {
            Ok(v) => v,
            Err(e) => return Err(e),
        };
        let error = match read_optional_text(object, OrderField::Error) {
            Ok(v) => v,
            Err(e) => return Err(e),
        };
        Ok(
            OrderInfo {
                id,
                market,
                future,
                order_type,
                side,
                price,
                size,
                reduce_only,
                ioc,
                post_only,
                status,
                filled_size,
                remaining_size,
                avg_fill_price,
                liquidation,
                created_at,
                client_id,
                retry_until_filled,
                trigger_price,
                order_price,
                triggered_at,
                error,
            },
        )
    }
}

} // verus!
