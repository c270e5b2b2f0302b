//! Domain value types shared by the request descriptors and the response
//! entity.

use vstd::prelude::*;

verus! {

/// Exchange-assigned order identifier. Only compared and rendered into paths.
pub type Id = u64;

/// Exact comparison of two string slices.
pub fn text_eq(a: &str, b: &str) -> (r: bool)
    ensures
        r == (a@ == b@),
{
    let left = a.to_owned();
    let right = b.to_owned();
    left == right
}

/// Direction of an order.
#[derive(Clone, Copy, Debug, PartialEq, Eq, Structural)]
pub enum Side {
    Buy,
    Sell,
}

/// Kind of an order.
#[derive(Clone, Copy, Debug, PartialEq, Eq, Structural)]
pub enum OrderType {
    Market,
    Limit,
    Stop,
    TrailingStop,
    TakeProfit,
}

/// Lifecycle label that the exchange assigns to an order.
#[derive(Clone, Copy, Debug, PartialEq, Eq, Structural)]
pub enum OrderStatus {
    New,
    Open,
    Closed,
}

impl Side {
    /// The lower-camel-case name under which the side travels.
    pub open spec fn spec_wire_name(self) -> Seq<char> {
        match self {
            Side::Buy => "buy"@,
            Side::Sell => "sell"@,
        }
    }

    /// The side that a transmitted name stands for, if any.
    pub open spec fn spec_parse(name: Seq<char>) -> Option<Side> {
        if name == "buy"@ {
            Some(Side::Buy)
        } else if name == "sell"@ {
            Some(Side::Sell)
        } else {
            None
        }
    }

    /// The name under which the value travels.
    pub fn wire_name(self) -> (name: &'static str)
        ensures
            name@ == self.spec_wire_name(),
    {
        match self {
            Side::Buy => "buy",
            Side::Sell => "sell",
        }
    }

    /// Reads a side from its transmitted name; `None` for any other text.
    pub fn parse(name: &str) -> (side: Option<Side>)
        ensures
            side == Side::spec_parse(name@),
    {
        if text_eq(name, "buy") {
            Some(Side::Buy)
        } else if text_eq(name, "sell") {
            Some(Side::Sell)
        } else {
            None
        }
    }

    /// Parsing the transmitted name of a side gives that side back.
    pub proof fn lemma_name_round_trip(self)
        ensures
            Side::spec_parse(self.spec_wire_name()) == Some(self),
    {
        reveal_strlit("buy");
        reveal_strlit("sell");
        assert("buy"@.len() == 3 && "sell"@.len() == 4);
    }
}

impl Default for Side {
    fn default() -> (side: Side)
        ensures
            side == Side::Buy,
    {
        Side::Buy
    }
}

impl OrderType {
    /// The lower-camel-case name under which the order type travels.
    pub open spec fn spec_wire_name(self) -> Seq<char> {
        match self {
            OrderType::Market => "market"@,
            OrderType::Limit => "limit"@,
            OrderType::Stop => "stop"@,
            OrderType::TrailingStop => "trailingStop"@,
            OrderType::TakeProfit => "takeProfit"@,
        }
    }

    /// The order type that a transmitted name stands for, if any.
    pub open spec fn spec_parse(name: Seq<char>) -> Option<OrderType> {
        if name == "market"@ {
            Some(OrderType::Market)
        } else if name == "limit"@ {
            Some(OrderType::Limit)
        } else if name == "stop"@ {
            Some(OrderType::Stop)
        } else if name == "trailingStop"@ {
            Some(OrderType::TrailingStop)
        } else if name == "takeProfit"@ {
            Some(OrderType::TakeProfit)
        } else {
            None
        }
    }

    /// The name under which the value travels.
    pub fn wire_name(self) -> (name: &'static str)
        ensures
            name@ == self.spec_wire_name(),
    {
        match self {
            OrderType::Market => "market",
            OrderType::Limit => "limit",
            OrderType::Stop => "stop",
            OrderType::TrailingStop => "trailingStop",
            OrderType::TakeProfit => "takeProfit",
        }
    }

    /// Reads an order type from its transmitted name; `None` for any other text.
    pub fn parse(name: &str) -> (kind: Option<OrderType>)
        ensures
            kind == OrderType::spec_parse(name@),
    {
        if text_eq(name, "market") {
            Some(OrderType::Market)
        } else if text_eq(name, "limit") {
            Some(OrderType::Limit)
        } else if text_eq(name, "stop") {
            Some(OrderType::Stop)
        } else if text_eq(name, "trailingStop") {
            Some(OrderType::TrailingStop)
        } else if text_eq(name, "takeProfit") {
            Some(OrderType::TakeProfit)
        } else {
            None
        }
    }

    /// Parsing the transmitted name of an order type gives that type back.
    pub proof fn lemma_name_round_trip(self)
        ensures
            OrderType::spec_parse(self.spec_wire_name()) == Some(self),
    {
        reveal_strlit("market");
        reveal_strlit("limit");
        reveal_strlit("stop");
        reveal_strlit("trailingStop");
        reveal_strlit("takeProfit");
        assert("market"@.len() == 6 && "limit"@.len() == 5 && "stop"@.len() == 4);
        assert("trailingStop"@.len() == 12 && "takeProfit"@.len() == 10);
    }
}

impl Default for OrderType {
    fn default() -> (kind: OrderType)
        ensures
            kind == OrderType::Market,
    {
        OrderType::Market
    }
}

impl OrderStatus {
    /// The lower-camel-case name under which the status travels.
    pub open spec fn spec_wire_name(self) -> Seq<char> {
        match self {
            OrderStatus::New => "new"@,
            OrderStatus::Open => "open"@,
            OrderStatus::Closed => "closed"@,
        }
    }

    /// The status that a transmitted name stands for, if any.
    pub open spec fn spec_parse(name: Seq<char>) -> Option<OrderStatus> {
        if name == "new"@ {
            Some(OrderStatus::New)
        } else if name == "open"@ {
            Some(OrderStatus::Open)
        } else if name == "closed"@ {
            Some(OrderStatus::Closed)
        } else {
            None
        }
    }

    /// The name under which the value travels.
    pub fn wire_name(self) -> (name: &'static str)
        ensures
            name@ == self.spec_wire_name(),
    {
        match self {
            OrderStatus::New => "new",
            OrderStatus::Open => "open",
            OrderStatus::Closed => "closed",
        }
    }

    /// Reads a status from its transmitted name; `None` for any other text.
    pub fn parse(name: &str) -> (status: Option<OrderStatus>)
        ensures
            status == OrderStatus::spec_parse(name@),
    {
        if text_eq(name, "new") {
            Some(OrderStatus::New)
        } else if text_eq(name, "open") {
            Some(OrderStatus::Open)
        } else if text_eq(name, "closed") {
            Some(OrderStatus::Closed)
        } else {
            None
        }
    }

    /// Parsing the transmitted name of a status gives that status back.
    pub proof fn lemma_name_round_trip(self)
        ensures
            OrderStatus::spec_parse(self.spec_wire_name()) == Some(self),
    {
        reveal_strlit("new");
        reveal_strlit("open");
        reveal_strlit("closed");
        assert("new"@.len() == 3 && "open"@.len() == 4 && "closed"@.len() == 6);
    }
}

} // verus!
