use vstd::prelude::*;

use crate::broker::Broker;
use crate::date::TradingDate;
use crate::error::NoteError;

verus! {

/// Money is held as a non-negative count of hundred-millionths of the currency unit.
pub const MONEY_SCALE: u64 = 100000000;

/// The square of `MONEY_SCALE`, used when a ratio of two amounts is divided by a third.
pub const MONEY_SCALE_SQUARED: u128 = 10000000000000000;

/// Largest amount, quantity or money figure that a stored integer column holds.
pub const STORABLE_MAX: u64 = 9223372036854775807;

/// Withholding income tax on a sale: `INCOME_TAX_NUMERATOR / INCOME_TAX_DENOMINATOR`
/// of the order value (0.005 %).
pub const INCOME_TAX_NUMERATOR: u64 = 5;

pub const INCOME_TAX_DENOMINATOR: u64 = 100000;

/// Kind of an order. Buys and sales are stored as the tags `C` and `V`; any
/// other tag is kept as it is and gets no special treatment.
#[derive(Debug, Clone, PartialEq, Eq)]
pub enum OrderType {
    Buy,
    Sell,
    Other(String),
}

/// Note-level figures supplied by the broker, before apportionment.
#[derive(Debug, Clone, PartialEq, Eq)]
pub struct BrokerageDraft {
    pub broker: Broker,
    pub trading_date: TradingDate,
    pub total_settlement_fee: u64,
    pub total_emolument_fee: u64,
    pub total_broker_fee: u64,
    pub total_iss_tax: u64,
}

/// An order as the caller supplies it: everything else about it is derived.
#[derive(Debug, Clone, PartialEq, Eq)]
pub struct BrokerageOrderDraft {
    pub order_type: OrderType,
    pub symbol: String,
    pub amount: u64,
    pub order_value: u64,
}

/// A note and its orders as the caller supplies them.
#[derive(Debug, Clone, PartialEq, Eq)]
pub struct BrokerageNoteDraft {
    pub brokerage: BrokerageDraft,
    pub orders: Vec<BrokerageOrderDraft>,
}

/// The note-level record with every aggregate filled in.
#[derive(Debug, Clone, PartialEq, Eq)]
pub struct Brokerage {
    pub id: i64,
    pub broker: Broker,
    pub trading_date: TradingDate,
    pub total_settlement_fee: u64,
    pub total_emolument_fee: u64,
    pub total_broker_fee: u64,
    pub total_iss_tax: u64,
    pub total_income_tax: u64,
    pub total_cost: u64,
    pub total_transacted: u64,
    pub total_purchased: u64,
    pub total_sold: u64,
}

/// An order with its share of the note's fees.
#[derive(Debug, Clone, PartialEq, Eq)]
pub struct BrokerageOrder {
    pub id: i64,
    pub order_type: OrderType,
    pub symbol: String,
    pub amount: u64,
    pub order_value: u64,
    pub unit_value: u64,
    pub settlement_fee: u64,
    pub emolument_fee: u64,
    pub broker_fee: u64,
    pub iss_tax: u64,
    pub income_tax: u64,
    pub total_cost: u64,
}

/// A note together with its orders.
#[derive(Debug, Clone, PartialEq, Eq)]
pub struct BrokerageNote {
    pub brokerage: Brokerage,
    pub orders: Vec<BrokerageOrder>,
}

/// The stored tag of an order type.
pub open spec fn type_tag(t: OrderType) -> Seq<char> {
    match t {
        OrderType::Buy => seq!['C'],
        OrderType::Sell => seq!['V'],
        OrderType::Other(tag) => tag@,
    }
}

impl OrderType {
    /// The stored tag: `C` for a buy, `V` for a sale, any other tag as it is.
    pub fn tag(&self) -> (r: String)
        ensures
            r@ == type_tag(*self),
    {
        proof {
            reveal_strlit("C");
            reveal_strlit("V");
            assert("C"@ =~= seq!['C']);
            assert("V"@ =~= seq!['V']);
        }
        match self {
            OrderType::Buy => "C".to_owned(),
            OrderType::Sell => "V".to_owned(),
            OrderType::Other(tag) => tag.clone(),
        }
    }

    /// The order type with the given stored tag.
    pub fn from_tag(tag: String) -> (r: OrderType)
        ensures
            tag@ == seq!['C'] ==> r is Buy,
            tag@ == seq!['V'] ==> r is Sell,
            tag@ != seq!['C'] && tag@ != seq!['V'] ==> r == OrderType::Other(tag),
            type_tag(r) == tag@,
    {
        proof {
            reveal_strlit("C");
            reveal_strlit("V");
            assert("C"@ =~= seq!['C']);
            assert("V"@ =~= seq!['V']);
            assert(seq!['V'] != seq!['C']) by {
                assert(seq!['V'][0] != seq!['C'][0]);
            }
        }
        if tag == "C".to_owned() {
            OrderType::Buy
        } else if tag == "V".to_owned() {
            OrderType::Sell
        } else {
            OrderType::Other(tag)
        }
    }

    pub fn copied(&self) -> (r: OrderType)
        ensures
            r == *self,
    {
        match self {
            OrderType::Buy => OrderType::Buy,
            OrderType::Sell => OrderType::Sell,
            OrderType::Other(tag) => OrderType::Other(tag.clone()),
        }
    }
}

impl Brokerage {
    /// Every figure fits in a stored integer.
    pub open spec fn storable(self) -> bool {
        &&& self.total_settlement_fee <= STORABLE_MAX
        &&& self.total_emolument_fee <= STORABLE_MAX
        &&& self.total_broker_fee <= STORABLE_MAX
        &&& self.total_iss_tax <= STORABLE_MAX
        &&& self.total_income_tax <= STORABLE_MAX
        &&& self.total_cost <= STORABLE_MAX
        &&& self.total_transacted <= STORABLE_MAX
        &&& self.total_purchased <= STORABLE_MAX
        &&& self.total_sold <= STORABLE_MAX
    }

    /// The same record under another id.
    pub fn with_id(&self, id: i64) -> (r: Brokerage)
        ensures
            r == (Brokerage { id, ..*self }),
    {
        Brokerage {
            id,
            broker: Broker { id: self.broker.id, name: self.broker.name.clone() },
            trading_date: self.trading_date,
            total_settlement_fee: self.total_settlement_fee,
            total_emolument_fee: self.total_emolument_fee,
            total_broker_fee: self.total_broker_fee,
            total_iss_tax: self.total_iss_tax,
            total_income_tax: self.total_income_tax,
            total_cost: self.total_cost,
            total_transacted: self.total_transacted,
            total_purchased: self.total_purchased,
            total_sold: self.total_sold,
        }
    }
}

impl BrokerageOrder {
    /// Every figure fits in a stored integer.
    pub open spec fn storable(self) -> bool {
        &&& self.amount <= STORABLE_MAX
        &&& self.order_value <= STORABLE_MAX
        &&& self.unit_value <= STORABLE_MAX
        &&& self.settlement_fee <= STORABLE_MAX
        &&& self.emolument_fee <= STORABLE_MAX
        &&& self.broker_fee <= STORABLE_MAX
        &&& self.iss_tax <= STORABLE_MAX
        &&& self.income_tax <= STORABLE_MAX
        &&& self.total_cost <= STORABLE_MAX
    }

    /// The same order under another id.
    pub fn with_id(&self, id: i64) -> (r: BrokerageOrder)
        ensures
            r == (BrokerageOrder { id, ..*self }),
    {
        BrokerageOrder {
            id,
            order_type: self.order_type.copied(),
            symbol: self.symbol.clone(),
            amount: self.amount,
            order_value: self.order_value,
            unit_value: self.unit_value,
            settlement_fee: self.settlement_fee,
            emolument_fee: self.emolument_fee,
            broker_fee: self.broker_fee,
            iss_tax: self.iss_tax,
            income_tax: self.income_tax,
            total_cost: self.total_cost,
        }
    }
}

impl BrokerageNote {
    pub open spec fn storable(self) -> bool {
        &&& self.brokerage.storable()
        &&& forall|i: int| 0 <= i < self.orders@.len() ==> (#[trigger] self.orders@[i]).storable()
    }
}

/// The per-order figure that a note aggregate adds up.
pub enum Part {
    Value,
    Purchased,
    Sold,
    IncomeTax,
}

/// Withholding income tax of one order: a fixed rate of the value of a sale, nothing otherwise.
pub open spec fn income_tax_of(o: BrokerageOrderDraft) -> int {
    if o.order_type is Sell {
        o.order_value * INCOME_TAX_NUMERATOR / INCOME_TAX_DENOMINATOR as int
    } else {
        0
    }
}

pub open spec fn part_of(o: BrokerageOrderDraft, part: Part) -> int {
    match part {
        Part::Value => o.order_value as int,
        Part::Purchased => if o.order_type is Buy { o.order_value as int } else { 0 },
        Part::Sold => if o.order_type is Sell { o.order_value as int } else { 0 },
        Part::IncomeTax => income_tax_of(o),
    }
}

/// Sum of one per-order figure over a sequence of orders.
pub open spec fn sum_of(orders: Seq<BrokerageOrderDraft>, part: Part) -> int
    decreases orders.len(),
{
    if orders.len() == 0 {
        0
    } else {
        sum_of(orders.drop_last(), part) + part_of(orders.last(), part)
    }
}

/// Sum of the order values of computed orders.
pub open spec fn order_value_total(orders: Seq<BrokerageOrder>) -> int
    decreases orders.len(),
{
    if orders.len() == 0 {
        0
    } else {
        order_value_total(orders.drop_last()) + orders.last().order_value
    }
}

/// A note-level fee divided by the total transacted, then divided by the order's value,
/// in money units (rounded down).
pub open spec fn fee_share(fee: int, transacted: int, value: int) -> int {
    fee * MONEY_SCALE * MONEY_SCALE / (transacted * value)
}

/// Some order has a zero amount or a zero value, which the apportionment divides by.
pub open spec fn has_zero_divisor(orders: Seq<BrokerageOrderDraft>) -> bool {
    exists|i: int| 0 <= i < orders.len() && (#[trigger] orders[i].amount == 0 || orders[i].order_value == 0)
}

impl BrokerageNoteDraft {
    pub open spec fn count(self) -> int {
        self.orders@.len() as int
    }

    pub open spec fn transacted(self) -> int {
        sum_of(self.orders@, Part::Value)
    }

    pub open spec fn note_cost(self) -> int {
        self.brokerage.total_settlement_fee + self.brokerage.total_emolument_fee
            + self.brokerage.total_broker_fee + self.brokerage.total_iss_tax
    }

    pub open spec fn settlement_of(self, i: int) -> int {
        fee_share(self.brokerage.total_settlement_fee as int, self.transacted(), self.orders@[i].order_value as int)
    }

    pub open spec fn emolument_of(self, i: int) -> int {
        fee_share(self.brokerage.total_emolument_fee as int, self.transacted(), self.orders@[i].order_value as int)
    }

    pub open spec fn order_cost(self, i: int) -> int {
        self.settlement_of(i) + self.emolument_of(i) + self.brokerage.total_broker_fee as int / self.count()
            + self.brokerage.total_iss_tax as int / self.count() + income_tax_of(self.orders@[i])
    }

    /// Every figure of the apportionment fits in a stored integer.
    pub open spec fn fits(self) -> bool {
        &&& self.transacted() <= STORABLE_MAX
        &&& self.note_cost() <= STORABLE_MAX
        &&& forall|i: int|
            0 <= i < self.count() ==> (#[trigger] self.orders@[i]).amount <= STORABLE_MAX
                && self.order_cost(i) <= STORABLE_MAX
    }

    /// Inputs on which `calc` succeeds.
    pub open spec fn calculable(self) -> bool {
        self.count() > 0 && !has_zero_divisor(self.orders@) && self.fits()
    }

    /// The note-level record that `calc` produces.
    pub open spec fn expected_brokerage(self) -> Brokerage {
        Brokerage {
            id: 0,
            broker: self.brokerage.broker,
            trading_date: self.brokerage.trading_date,
            total_settlement_fee: self.brokerage.total_settlement_fee,
            total_emolument_fee: self.brokerage.total_emolument_fee,
            total_broker_fee: self.brokerage.total_broker_fee,
            total_iss_tax: self.brokerage.total_iss_tax,
            total_income_tax: sum_of(self.orders@, Part::IncomeTax) as u64,
            total_cost: self.note_cost() as u64,
            total_transacted: self.transacted() as u64,
            total_purchased: sum_of(self.orders@, Part::Purchased) as u64,
            total_sold: sum_of(self.orders@, Part::Sold) as u64,
        }
    }

    /// The `i`-th order that `calc` produces.
    pub open spec fn expected_order(self, i: int) -> BrokerageOrder {
        let o = self.orders@[i];
        BrokerageOrder {
            id: 0,
            order_type: o.order_type,
            symbol: o.symbol,
            amount: o.amount,
            order_value: o.order_value,
            unit_value: (o.order_value / o.amount) as u64,
            settlement_fee: self.settlement_of(i) as u64,
            emolument_fee: self.emolument_of(i) as u64,
            broker_fee: (self.brokerage.total_broker_fee as int / self.count()) as u64,
            iss_tax: (self.brokerage.total_iss_tax as int / self.count()) as u64,
            income_tax: income_tax_of(o) as u64,
            total_cost: self.order_cost(i) as u64,
        }
    }

    /// `note` is what `calc` produces from this draft, stored under the ids it carries.
    pub open spec fn stored_as(self, note: BrokerageNote) -> bool {
        &&& note.brokerage == (Brokerage { id: note.brokerage.id, ..self.expected_brokerage() })
        &&& note.orders@.len() == self.count()
        &&& forall|i: int|
            0 <= i < self.count() ==> #[trigger] note.orders@[i] == (BrokerageOrder {
                id: note.orders@[i].id,
                ..self.expected_order(i)
            })
    }

    /// `note` is what `calc` produces from this draft.
    pub open spec fn calculated(self, note: BrokerageNote) -> bool {
        &&& note.brokerage == self.expected_brokerage()
        &&& note.orders@.len() == self.count()
        &&& forall|i: int| 0 <= i < self.count() ==> #[trigger] note.orders@[i] == self.expected_order(i)
    }
}

} // verus!
