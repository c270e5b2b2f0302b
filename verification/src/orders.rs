//! The request descriptors of the order-management surface.
//!
//! A descriptor carries the parameters of one call. Its body lists the
//! fields to transmit, in declaration order and under lower-camel-case keys.
//! A field that only addresses the call (`id`, `client_id`) goes into the
//! path and never into the body. An optional field that is absent leaves no
//! key behind; the one exception is the price of `PlaceOrder`, which is sent
//! as an explicit null.

use crate::common::{Id, OrderType, Side};
use crate::contract::{Method, Request, ResponseKind};
use crate::decimal::{decimal_from_parts, scaled_decimal};
use crate::text::{decimal_text, render_decimal};
use crate::timestamp::Timestamp;
use crate::wire::{
    nullable_number, optional_flag, optional_number, optional_text, optional_view, put,
    put_optional, text_value, FieldView, Object, Value, ValueView,
};
use rust_decimal::Decimal;
use vstd::prelude::*;
use vstd::string::StringExecFns;

verus! {

/// The value of an optional side: none where the side is absent.
pub open spec fn optional_side(side: Option<Side>) -> Option<ValueView> {
    match side {
        Some(s) => Some(ValueView::Text(s.spec_wire_name())),
        None => None,
    }
}

/// The value of an optional time filter, a whole number of Unix seconds: none
/// where the time is absent.
pub open spec fn optional_time(time: Option<Timestamp>) -> Option<ValueView> {
    match time {
        Some(t) => Some(ValueView::Integer(t.seconds as int)),
        None => None,
    }
}

/// The value of an optional count: none where the count is absent.
pub open spec fn optional_count(count: Option<usize>) -> Option<ValueView> {
    match count {
        Some(n) => Some(ValueView::Integer(n as int)),
        None => None,
    }
}

fn side_value(side: Option<Side>) -> (value: Option<Value>)
    ensures
        optional_view(value) == optional_side(side),
{
    match side {
        Some(s) => Some(Value::text(s.wire_name())),
        None => None,
    }
}

fn time_value(time: Option<Timestamp>) -> (value: Option<Value>)
    ensures
        optional_view(value) == optional_time(time),
{
    match time {
        Some(t) => Some(Value::Integer(t.unix_seconds() as i128)),
        None => None,
    }
}

fn count_value(count: Option<usize>) -> (value: Option<Value>)
    ensures
        optional_view(value) == optional_count(count),
{
    match count {
        Some(n) => Some(Value::Integer(n as i128)),
        None => None,
    }
}

fn empty_text() -> (text: &'static str)
    ensures
        text@ == Seq::<char>::empty(),
{
    proof {
        reveal_strlit("");
    }
    let text = "";
    assert(text@ =~= Seq::<char>::empty());
    text
}

/// Lists the open orders, of one market or of all.
#[derive(Clone, Debug)]
pub struct GetOpenOrders<'a> {
    /// Restricts the listing to one market.
    pub market: Option<&'a str>,
}

impl<'a> GetOpenOrders<'a> {
    /// The listing over every market.
    pub fn all_market() -> (request: GetOpenOrders<'a>)
        ensures
            request.market is None,
    {
        GetOpenOrders { market: None }
    }

    /// The listing of one market.
    pub fn with_market(market: &'a str) -> (request: GetOpenOrders<'a>)
        ensures
            request.market == Some(market),
    {
        GetOpenOrders { market: Some(market) }
    }
}

impl<'a> Default for GetOpenOrders<'a> {
    fn default() -> (request: GetOpenOrders<'a>)
        ensures
            request.market is None,
    {
        GetOpenOrders { market: None }
    }
}

impl<'a> Request for GetOpenOrders<'a> {
    open spec fn spec_method() -> Method {
        Method::Get
    }

    open spec fn spec_requires_auth() -> bool {
        true
    }

    open spec fn spec_response_type() -> ResponseKind {
        ResponseKind::OrderList
    }

    open spec fn spec_supports_optimized_access() -> bool {
        true
    }

    open spec fn spec_path(&self) -> Seq<char> {
        "/orders"@
    }

    open spec fn spec_body(&self) -> Seq<FieldView> {
        let body = Seq::<FieldView>::empty();
        let body = put_optional(body, "market"@, optional_text(self.market));
        body
    }

    fn method() -> (method: Method) {
        Method::Get
    }

    fn requires_auth() -> (auth: bool) {
        true
    }

    fn response_type() -> (kind: ResponseKind) {
        ResponseKind::OrderList
    }

    fn supports_optimized_access() -> (supported: bool) {
        true
    }

    fn path(&self) -> (path: String) {
        String::from_str("/orders")
    }

    fn body(&self) -> (body: Object) {
        let mut body = Object::new();
        body.push_optional("market", Value::optional_text(self.market));
        body
    }
}

/// Places an order that takes effect at once.
#[derive(Clone, Debug)]
pub struct PlaceOrder<'a> {
    pub market: &'a str,
    pub side: Side,
    /// Limit price. A market order has none, and still transmits the key:
    /// the exchange rejects a market order whose body lacks it.
    pub price: Option<Decimal>,
    pub order_type: OrderType,
    pub size: Decimal,
    pub reduce_only: bool,
    pub ioc: bool,
    pub post_only: bool,
    pub client_id: Option<&'a str>,
    pub reject_on_price_band: bool,
}

impl<'a> Default for PlaceOrder<'a> {
    /// A market buy of size zero on the market without a name, every flag
    /// off.
    fn default() -> (request: PlaceOrder<'a>)
        ensures
            request.market@ == Seq::<char>::empty(),
            request.side == Side::Buy,
            request.price is None,
            request.order_type == OrderType::Market,
            request.size == scaled_decimal(0, 0),
            !request.reduce_only,
            !request.ioc,
            !request.post_only,
            request.client_id is None,
            !request.reject_on_price_band,
    {
        PlaceOrder {
            market: empty_text(),
            side: Side::Buy,
            price: None,
            order_type: OrderType::Market,
            size: decimal_from_parts(0, 0),
            reduce_only: false,
            ioc: false,
            post_only: false,
            client_id: None,
            reject_on_price_band: false,
        }
    }
}

impl<'a> Request for PlaceOrder<'a> {
    open spec fn spec_method() -> Method {
        Method::Post
    }

    open spec fn spec_requires_auth() -> bool {
        true
    }

    open spec fn spec_response_type() -> ResponseKind {
        ResponseKind::Order
    }

    open spec fn spec_supports_optimized_access() -> bool {
        true
    }

    open spec fn spec_path(&self) -> Seq<char> {
        "/orders"@
    }

    open spec fn spec_body(&self) -> Seq<FieldView> {
        let body = Seq::<FieldView>::empty();
        let body = put(body, "market"@, text_value(self.market@));
        let body = put(body, "side"@, text_value(self.side.spec_wire_name()));
        let body = put(body, "price"@, nullable_number(self.price));
        let body = put(body, "type"@, text_value(self.order_type.spec_wire_name()));
        let body = put(body, "size"@, ValueView::Number(self.size));
        let body = put(body, "reduceOnly"@, ValueView::Bool(self.reduce_only));
        let body = put(body, "ioc"@, ValueView::Bool(self.ioc));
        let body = put(body, "postOnly"@, ValueView::Bool(self.post_only));
        let body = put_optional(body, "clientId"@, optional_text(self.client_id));
        let body = put(body, "rejectOnPriceBand"@, ValueView::Bool(self.reject_on_price_band));
        body
    }

    fn method() -> (method: Method) {
        Method::Post
    }

    fn requires_auth() -> (auth: bool) {
        true
    }

    fn response_type() -> (kind: ResponseKind) {
        ResponseKind::Order
    }

    fn supports_optimized_access() -> (supported: bool) {
        true
    }

    fn path(&self) -> (path: String) {
        String::from_str("/orders")
    }

    fn body(&self) -> (body: Object) {
        let mut body = Object::new();
        body.push("market", Value::text(self.market));
        body.push("side", Value::text(self.side.wire_name()));
        body.push("price", Value::nullable_number(self.price));
        body.push("type", Value::text(self.order_type.wire_name()));
        body.push("size", Value::Number(self.size));
        body.push("reduceOnly", Value::Bool(self.reduce_only));
        body.push("ioc", Value::Bool(self.ioc));
        body.push("postOnly", Value::Bool(self.post_only));
        body.push_optional("clientId", Value::optional_text(self.client_id));
        body.push("rejectOnPriceBand", Value::Bool(self.reject_on_price_band));
        body
    }
}

/// Changes the price, the size or the client id of an order. What is absent
/// stays as it is.
#[derive(Clone, Debug)]
pub struct ModifyOrder<'a> {
    pub id: Id,
    pub price: Option<Decimal>,
    pub size: Option<Decimal>,
    pub client_id: Option<&'a str>,
}

impl<'a> Default for ModifyOrder<'a> {
    fn default() -> (request: ModifyOrder<'a>)
        ensures
            request.id == 0,
            request.price is None,
            request.size is None,
            request.client_id is None,
    {
        ModifyOrder { id: 0, price: None, size: None, client_id: None }
    }
}

impl<'a> Request for ModifyOrder<'a> {
    open spec fn spec_method() -> Method {
        Method::Post
    }

    open spec fn spec_requires_auth() -> bool {
        true
    }

    open spec fn spec_response_type() -> ResponseKind {
        ResponseKind::Order
    }

    open spec fn spec_supports_optimized_access() -> bool {
        false
    }

    open spec fn spec_path(&self) -> Seq<char> {
        "/orders/"@ + decimal_text(self.id as nat) + "/modify"@
    }

    open spec fn spec_body(&self) -> Seq<FieldView> {
        let body = Seq::<FieldView>::empty();
        let body = put_optional(body, "price"@, optional_number(self.price));
        let body = put_optional(body, "size"@, optional_number(self.size));
        let body = put_optional(body, "clientId"@, optional_text(self.client_id));
        body
    }

    fn method() -> (method: Method) {
        Method::Post
    }

    fn requires_auth() -> (auth: bool) {
        true
    }

    fn response_type() -> (kind: ResponseKind) {
        ResponseKind::Order
    }

    fn supports_optimized_access() -> (supported: bool) {
        false
    }

    fn path(&self) -> (path: String) {
        String::from_str("/orders/").concat(render_decimal(self.id).as_str()).concat("/modify")
    }

    fn body(&self) -> (body: Object) {
        let mut body = Object::new();
        body.push_optional("price", Value::optional_number(self.price));
        body.push_optional("size", Value::optional_number(self.size));
        body.push_optional("clientId", Value::optional_text(self.client_id));
        body
    }
}

/// Fetches one order by its identifier.
#[derive(Clone, Debug)]
pub struct GetOrder {
    pub id: Id,
}

impl GetOrder {
    /// The call that addresses the order with this identifier.
    pub fn new(order_id: Id) -> (request: GetOrder)
        ensures
            request.id == order_id,
    {
        GetOrder { id: order_id }
    }
}

impl Default for GetOrder {
    fn default() -> (request: GetOrder)
        ensures
            request.id == 0,
    {
        GetOrder { id: 0 }
    }
}

impl Request for GetOrder {
    open spec fn spec_method() -> Method {
        Method::Get
    }

    open spec fn spec_requires_auth() -> bool {
        true
    }

    open spec fn spec_response_type() -> ResponseKind {
        ResponseKind::Order
    }

    open spec fn spec_supports_optimized_access() -> bool {
        false
    }

    open spec fn spec_path(&self) -> Seq<char> {
        "/orders/"@ + decimal_text(self.id as nat)
    }

    open spec fn spec_body(&self) -> Seq<FieldView> {
        Seq::<FieldView>::empty()
    }

    fn method() -> (method: Method) {
        Method::Get
    }

    fn requires_auth() -> (auth: bool) {
        true
    }

    fn response_type() -> (kind: ResponseKind) {
        ResponseKind::Order
    }

    fn supports_optimized_access() -> (supported: bool) {
        false
    }

    fn path(&self) -> (path: String) {
        String::from_str("/orders/").concat(render_decimal(self.id).as_str())
    }

    fn body(&self) -> (body: Object) {
        Object::new()
    }
}

/// Cancels one order by its identifier.
#[derive(Clone, Debug)]
pub struct CancelOrder {
    pub id: Id,
}

impl CancelOrder {
    /// The call that addresses the order with this identifier.
    pub fn new(order_id: Id) -> (request: CancelOrder)
        ensures
            request.id == order_id,
    {
        CancelOrder { id: order_id }
    }
}

impl Default for CancelOrder {
    fn default() -> (request: CancelOrder)
        ensures
            request.id == 0,
    {
        CancelOrder { id: 0 }
    }
}

impl Request for CancelOrder {
    open spec fn spec_method() -> Method {
        Method::Delete
    }

    open spec fn spec_requires_auth() -> bool {
        true
    }

    open spec fn spec_response_type() -> ResponseKind {
        ResponseKind::Confirmation
    }

    open spec fn spec_supports_optimized_access() -> bool {
        true
    }

    open spec fn spec_path(&self) -> Seq<char> {
        "/orders/"@ + decimal_text(self.id as nat)
    }

    open spec fn spec_body(&self) -> Seq<FieldView> {
        Seq::<FieldView>::empty()
    }

    fn method() -> (method: Method) {
        Method::Delete
    }

    fn requires_auth() -> (auth: bool) {
        true
    }

    fn response_type() -> (kind: ResponseKind) {
        ResponseKind::Confirmation
    }

    fn supports_optimized_access() -> (supported: bool) {
        true
    }

    fn path(&self) -> (path: String) {
        String::from_str("/orders/").concat(render_decimal(self.id).as_str())
    }

    fn body(&self) -> (body: Object) {
        Object::new()
    }
}

/// Cancels one trigger order by its identifier.
#[derive(Clone, Debug)]
pub struct CancelTriggerOrder {
    pub id: Id,
}

impl CancelTriggerOrder {
    /// The call that addresses the order with this identifier.
    pub fn new(order_id: Id) -> (request: CancelTriggerOrder)
        ensures
            request.id == order_id,
    {
        CancelTriggerOrder { id: order_id }
    }
}

impl Default for CancelTriggerOrder {
    fn default() -> (request: CancelTriggerOrder)
        ensures
            request.id == 0,
    {
        CancelTriggerOrder { id: 0 }
    }
}

impl Request for CancelTriggerOrder {
    open spec fn spec_method() -> Method {
        Method::Delete
    }

    open spec fn spec_requires_auth() -> bool {
        true
    }

    open spec fn spec_response_type() -> ResponseKind {
        ResponseKind::Confirmation
    }

    open spec fn spec_supports_optimized_access() -> bool {
        false
    }

    open spec fn spec_path(&self) -> Seq<char> {
        "/conditional_orders/"@ + decimal_text(self.id as nat)
    }

    open spec fn spec_body(&self) -> Seq<FieldView> {
        Seq::<FieldView>::empty()
    }

    fn method() -> (method: Method) {
        Method::Delete
    }

    fn requires_auth() -> (auth: bool) {
        true
    }

    fn response_type() -> (kind: ResponseKind) {
        ResponseKind::Confirmation
    }

    fn supports_optimized_access() -> (supported: bool) {
        false
    }

    fn path(&self) -> (path: String) {
        String::from_str("/conditional_orders/").concat(render_decimal(self.id).as_str())
    }

    fn body(&self) -> (body: Object) {
        Object::new()
    }
}

/// Cancels every order that passes the filters. An absent filter lets every
/// order pass.
#[derive(Clone, Debug)]
pub struct CancelAllOrder<'a> {
    pub market: Option<&'a str>,
    pub side: Option<Side>,
    pub conditional_orders_only: Option<bool>,
    pub limit_orders_only: Option<bool>,
}

impl<'a> CancelAllOrder<'a> {
    /// Cancels the orders of one market, with no other filter.
    pub fn with_market(market: &'a str) -> (request: CancelAllOrder<'a>)
        ensures
            request.market == Some(market),
            request.side is None,
            request.conditional_orders_only is None,
            request.limit_orders_only is None,
    {
        CancelAllOrder {
            market: Some(market),
            side: None,
            conditional_orders_only: None,
            limit_orders_only: None,
        }
    }
}

impl<'a> Default for CancelAllOrder<'a> {
    fn default() -> (request: CancelAllOrder<'a>)
        ensures
            request.market is None,
            request.side is None,
            request.conditional_orders_only is None,
            request.limit_orders_only is None,
    {
        CancelAllOrder {
            market: None,
            side: None,
            conditional_orders_only: None,
            limit_orders_only: None,
        }
    }
}

impl<'a> Request for CancelAllOrder<'a> {
    open spec fn spec_method() -> Method {
        Method::Delete
    }

    open spec fn spec_requires_auth() -> bool {
        true
    }

    open spec fn spec_response_type() -> ResponseKind {
        ResponseKind::Confirmation
    }

    open spec fn spec_supports_optimized_access() -> bool {
        false
    }

    open spec fn spec_path(&self) -> Seq<char> {
        "/orders"@
    }

    open spec fn spec_body(&self) -> Seq<FieldView> {
        let body = Seq::<FieldView>::empty();
        let body = put_optional(body, "market"@, optional_text(self.market));
        let body = put_optional(body, "side"@, optional_side(self.side));
        let body = put_optional(body, "conditionalOrdersOnly"@, optional_flag(self.conditional_orders_only));
        let body = put_optional(body, "limitOrdersOnly"@, optional_flag(self.limit_orders_only));
        body
    }

    fn method() -> (method: Method) {
        Method::Delete
    }

    fn requires_auth() -> (auth: bool) {
        true
    }

    fn response_type() -> (kind: ResponseKind) {
        ResponseKind::Confirmation
    }

    fn supports_optimized_access() -> (supported: bool) {
        false
    }

    fn path(&self) -> (path: String) {
        String::from_str("/orders")
    }

    fn body(&self) -> (body: Object) {
        let mut body = Object::new();
        body.push_optional("market", Value::optional_text(self.market));
        body.push_optional("side", side_value(self.side));
        body.push_optional("conditionalOrdersOnly", Value::optional_flag(self.conditional_orders_only));
        body.push_optional("limitOrdersOnly", Value::optional_flag(self.limit_orders_only));
        body
    }
}

/// Cancels one order by the identifier that the client gave it.
#[derive(Clone, Debug)]
pub struct CancelOrderByClientId<'a> {
    pub client_id: &'a str,
}

impl<'a> CancelOrderByClientId<'a> {
    /// The call that addresses the order with this client id.
    pub fn new(client_id: &'a str) -> (request: CancelOrderByClientId<'a>)
        ensures
            request.client_id == client_id,
    {
        CancelOrderByClientId { client_id }
    }
}

impl<'a> Default for CancelOrderByClientId<'a> {
    fn default() -> (request: CancelOrderByClientId<'a>)
        ensures
            request.client_id@ == Seq::<char>::empty(),
    {
        CancelOrderByClientId { client_id: empty_text() }
    }
}

impl<'a> Request for CancelOrderByClientId<'a> {
    open spec fn spec_method() -> Method {
        Method::Delete
    }

    open spec fn spec_requires_auth() -> bool {
        true
    }

    open spec fn spec_response_type() -> ResponseKind {
        ResponseKind::Confirmation
    }

    open spec fn spec_supports_optimized_access() -> bool {
        true
    }

    open spec fn spec_path(&self) -> Seq<char> {
        "/orders/by_client_id/"@ + self.client_id@
    }

    open spec fn spec_body(&self) -> Seq<FieldView> {
        Seq::<FieldView>::empty()
    }

    fn method() -> (method: Method) {
        Method::Delete
    }

    fn requires_auth() -> (auth: bool) {
        true
    }

    fn response_type() -> (kind: ResponseKind) {
        ResponseKind::Confirmation
    }

    fn supports_optimized_access() -> (supported: bool) {
        true
    }

    fn path(&self) -> (path: String) {
        String::from_str("/orders/by_client_id/").concat(self.client_id)
    }

    fn body(&self) -> (body: Object) {
        Object::new()
    }
}

/// Fetches one order by the identifier that the client gave it.
#[derive(Clone, Debug)]
pub struct GetOrderByClientId<'a> {
    pub client_id: &'a str,
}

impl<'a> GetOrderByClientId<'a> {
    /// The call that addresses the order with this client id.
    pub fn new(client_id: &'a str) -> (request: GetOrderByClientId<'a>)
        ensures
            request.client_id == client_id,
    {
        GetOrderByClientId { client_id }
    }
}

impl<'a> Default for GetOrderByClientId<'a> {
    fn default() -> (request: GetOrderByClientId<'a>)
        ensures
            request.client_id@ == Seq::<char>::empty(),
    {
        GetOrderByClientId { client_id: empty_text() }
    }
}

impl<'a> Request for GetOrderByClientId<'a> {
    open spec fn spec_method() -> Method {
        Method::Get
    }

    open spec fn spec_requires_auth() -> bool {
        true
    }

    open spec fn spec_response_type() -> ResponseKind {
        ResponseKind::Order
    }

    open spec fn spec_supports_optimized_access() -> bool {
        false
    }

    open spec fn spec_path(&self) -> Seq<char> {
        "/orders/by_client_id/"@ + self.client_id@
    }

    open spec fn spec_body(&self) -> Seq<FieldView> {
        Seq::<FieldView>::empty()
    }

    fn method() -> (method: Method) {
        Method::Get
    }

    fn requires_auth() -> (auth: bool) {
        true
    }

    fn response_type() -> (kind: ResponseKind) {
        ResponseKind::Order
    }

    fn supports_optimized_access() -> (supported: bool) {
        false
    }

    fn path(&self) -> (path: String) {
        String::from_str("/orders/by_client_id/").concat(self.client_id)
    }

    fn body(&self) -> (body: Object) {
        Object::new()
    }
}

/// Lists past orders that pass the filters.
#[derive(Clone, Debug)]
pub struct GetOrderHistory<'a> {
    pub market: Option<&'a str>,
    pub side: Option<Side>,
    pub limit: Option<usize>,
    /// Start of the time range, transmitted as whole Unix seconds.
    pub start_time: Option<Timestamp>,
    /// End of the time range, transmitted as whole Unix seconds.
    pub end_time: Option<Timestamp>,
}

impl<'a> Default for GetOrderHistory<'a> {
    fn default() -> (request: GetOrderHistory<'a>)
        ensures
            request.market is None,
            request.side is None,
            request.limit is None,
            request.start_time is None,
            request.end_time is None,
    {
        GetOrderHistory { market: None, side: None, limit: None, start_time: None, end_time: None }
    }
}

impl<'a> Request for GetOrderHistory<'a> {
    open spec fn spec_method() -> Method {
        Method::Get
    }

    open spec fn spec_requires_auth() -> bool {
        true
    }

    open spec fn spec_response_type() -> ResponseKind {
        ResponseKind::OrderList
    }

    open spec fn spec_supports_optimized_access() -> bool {
        false
    }

    open spec fn spec_path(&self) -> Seq<char> {
        "/orders/history"@
    }

    open spec fn spec_body(&self) -> Seq<FieldView> {
        let body = Seq::<FieldView>::empty();
        let body = put_optional(body, "market"@, optional_text(self.market));
        let body = put_optional(body, "side"@, optional_side(self.side));
        let body = put_optional(body, "limit"@, optional_count(self.limit));
        let body = put_optional(body, "startTime"@, optional_time(self.start_time));
        let body = put_optional(body, "endTime"@, optional_time(self.end_time));
        body
    }

    fn method() -> (method: Method) {
        Method::Get
    }

    fn requires_auth() -> (auth: bool) {
        true
    }

    fn response_type() -> (kind: ResponseKind) {
        ResponseKind::OrderList
    }

    fn supports_optimized_access() -> (supported: bool) {
        false
    }

    fn path(&self) -> (path: String) {
        String::from_str("/orders/history")
    }

    fn body(&self) -> (body: Object) {
        let mut body = Object::new();
        body.push_optional("market", Value::optional_text(self.market));
        body.push_optional("side", side_value(self.side));
        body.push_optional("limit", count_value(self.limit));
        body.push_optional("startTime", time_value(self.start_time));
        body.push_optional("endTime", time_value(self.end_time));
        body
    }
}

/// Places an order that takes effect once the market reaches the trigger
/// price.
#[derive(Clone, Debug)]
pub struct PlaceTriggerOrder<'a> {
    pub market: &'a str,
    pub side: Side,
    pub size: Decimal,
    pub order_type: OrderType,
    pub trigger_price: Decimal,
    pub reduce_only: Option<bool>,
    pub retry_until_filled: Option<bool>,
    pub order_price: Option<Decimal>,
    pub trail_value: Option<Decimal>,
}

impl<'a> Default for PlaceTriggerOrder<'a> {
    fn default() -> (request: PlaceTriggerOrder<'a>)
        ensures
            request.market@ == Seq::<char>::empty(),
            request.side == Side::Buy,
            request.size == scaled_decimal(0, 0),
            request.order_type == OrderType::Market,
            request.trigger_price == scaled_decimal(0, 0),
            request.reduce_only is None,
            request.retry_until_filled is None,
            request.order_price is None,
            request.trail_value is None,
    {
        PlaceTriggerOrder {
            market: empty_text(),
            side: Side::Buy,
            size: decimal_from_parts(0, 0),
            order_type: OrderType::Market,
            trigger_price: decimal_from_parts(0, 0),
            reduce_only: None,
            retry_until_filled: None,
            order_price: None,
            trail_value: None,
        }
    }
}

impl<'a> Request for PlaceTriggerOrder<'a> {
    open spec fn spec_method() -> Method {
        Method::Post
    }

    open spec fn spec_requires_auth() -> bool {
        true
    }

    open spec fn spec_response_type() -> ResponseKind {
        ResponseKind::Order
    }

    open spec fn spec_supports_optimized_access() -> bool {
        false
    }

    open spec fn spec_path(&self) -> Seq<char> {
        "/conditional_orders"@
    }

    open spec fn spec_body(&self) -> Seq<FieldView> {
        let body = Seq::<FieldView>::empty();
        let body = put(body, "market"@, text_value(self.market@));
        let body = put(body, "side"@, text_value(self.side.spec_wire_name()));
        let body = put(body, "size"@, ValueView::Number(self.size));
        let body = put(body, "type"@, text_value(self.order_type.spec_wire_name()));
        let body = put(body, "triggerPrice"@, ValueView::Number(self.trigger_price));
        let body = put_optional(body, "reduceOnly"@, optional_flag(self.reduce_only));
        let body = put_optional(body, "retryUntilFilled"@, optional_flag(self.retry_until_filled));
        let body = put_optional(body, "orderPrice"@, optional_number(self.order_price));
        let body = put_optional(body, "trailValue"@, optional_number(self.trail_value));
        body
    }

    fn method() -> (method: Method) {
        Method::Post
    }

    fn requires_auth() -> (auth: bool) {
        true
    }

    fn response_type() -> (kind: ResponseKind) {
        ResponseKind::Order
    }

    fn supports_optimized_access() -> (supported: bool) {
        false
    }

    fn path(&self) -> (path: String) {
        String::from_str("/conditional_orders")
    }

    fn body(&self) -> (body: Object) {
        let mut body = Object::new();
        body.push("market", Value::text(self.market));
        body.push("side", Value::text(self.side.wire_name()));
        body.push("size", Value::Number(self.size));
        body.push("type", Value::text(self.order_type.wire_name()));
        body.push("triggerPrice", Value::Number(self.trigger_price));
        body.push_optional("reduceOnly", Value::optional_flag(self.reduce_only));
        body.push_optional("retryUntilFilled", Value::optional_flag(self.retry_until_filled));
        body.push_optional("orderPrice", Value::optional_number(self.order_price));
        body.push_optional("trailValue", Value::optional_number(self.trail_value));
        body
    }
}

/// Changes the price or the size of the order that carries a client id. What
/// is absent stays as it is.
#[derive(Clone, Debug)]
pub struct ModifyOrderByClientId<'a> {
    pub client_id: &'a str,
    pub price: Option<Decimal>,
    pub size: Option<Decimal>,
}

impl<'a> Default for ModifyOrderByClientId<'a> {
    fn default() -> (request: ModifyOrderByClientId<'a>)
        ensures
            request.client_id@ == Seq::<char>::empty(),
            request.price is None,
            request.size is None,
    {
        ModifyOrderByClientId { client_id: empty_text(), price: None, size: None }
    }
}

impl<'a> Request for ModifyOrderByClientId<'a> {
    open spec fn spec_method() -> Method {
        Method::Post
    }

    open spec fn spec_requires_auth() -> bool {
        true
    }

    open spec fn spec_response_type() -> ResponseKind {
        ResponseKind::Order
    }

    open spec fn spec_supports_optimized_access() -> bool {
        false
    }

    open spec fn spec_path(&self) -> Seq<char> {
        "/orders/by_client_id/"@ + self.client_id@ + "/modify"@
    }

    open spec fn spec_body(&self) -> Seq<FieldView> {
        let body = Seq::<FieldView>::empty();
        let body = put_optional(body, "price"@, optional_number(self.price));
        let body = put_optional(body, "size"@, optional_number(self.size));
        body
    }

    fn method() -> (method: Method) {
        Method::Post
    }

    fn requires_auth() -> (auth: bool) {
        true
    }

    fn response_type() -> (kind: ResponseKind) {
        ResponseKind::Order
    }

    fn supports_optimized_access() -> (supported: bool) {
        false
    }

    fn path(&self) -> (path: String) {
        String::from_str("/orders/by_client_id/").concat(self.client_id).concat("/modify")
    }

    fn body(&self) -> (body: Object) {
        let mut body = Object::new();
        body.push_optional("price", Value::optional_number(self.price));
        body.push_optional("size", Value::optional_number(self.size));
        body
    }
}

} // verus!
