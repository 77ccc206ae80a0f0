
use brokerage_notes::note::{INCOME_TAX_DENOMINATOR, INCOME_TAX_NUMERATOR, STORABLE_MAX};
use brokerage_notes::{
    Broker, BrokerageDraft, BrokerageNoteDraft, BrokerageOrderDraft, NoteError, OrderType,
    TradingDate, MONEY_SCALE,
};

const UNIT: u64 = MONEY_SCALE;

fn order(order_type: OrderType, symbol: &str, amount: u64, order_value: u64) -> BrokerageOrderDraft {
    BrokerageOrderDraft { order_type, symbol: symbol.to_string(), amount, order_value }
}

fn draft(
    settlement: u64,
    emolument: u64,
    broker_fee: u64,
    iss: u64,
    orders: Vec<BrokerageOrderDraft>,
) -> BrokerageNoteDraft {
    BrokerageNoteDraft {
        brokerage: BrokerageDraft {
            broker: Broker { id: 7, name: "XP".to_string() },
            trading_date: TradingDate::new(2022, 3, 14).unwrap(),
            total_settlement_fee: settlement,
            total_emolument_fee: emolument,
            total_broker_fee: broker_fee,
            total_iss_tax: iss,
        },
        orders,
    }
}

#[test]
fn two_sales_split_fees_and_withhold_income_tax() {
    let d = draft(
        0,
        0,
        30 * UNIT,
        6 * UNIT,
        vec![
            order(OrderType::Sell, "PETR4", 100, 1000 * UNIT),
            order(OrderType::Sell, "VALE3", 50, 2000 * UNIT),
        ],
    );
    let note = d.calc().unwrap();
    assert_eq!(note.orders.len(), 2);
    for o in &note.orders {
        assert_eq!(o.broker_fee, 15 * UNIT);
        assert_eq!(o.iss_tax, 3 * UNIT);
    }
    // 1000 * 0.00005 = 0.05
    assert_eq!(note.orders[0].income_tax, 5 * UNIT / 100);
    assert_eq!(note.orders[1].income_tax, 10 * UNIT / 100);
    // 0.05 + 2000 * 0.00005 = 0.15
    assert_eq!(note.brokerage.total_income_tax, 15 * UNIT / 100);
    assert_eq!(note.brokerage.total_sold, 3000 * UNIT);
    assert_eq!(note.brokerage.total_purchased, 0);
}

#[test]
fn empty_order_list_is_refused() {
    let d = draft(UNIT, UNIT, UNIT, UNIT, vec![]);
    assert_eq!(d.calc(), Err(NoteError::EmptyOrderSet));
}

#[test]
fn zero_amount_is_refused() {
    let d = draft(UNIT, UNIT, UNIT, UNIT, vec![
        order(OrderType::Buy, "ITSA4", 10, 100 * UNIT),
        order(OrderType::Buy, "BBAS3", 0, 100 * UNIT),
    ]);
    assert_eq!(d.calc(), Err(NoteError::DivisionByZero));
}

#[test]
fn zero_order_value_is_refused() {
    let d = draft(UNIT, UNIT, UNIT, UNIT, vec![order(OrderType::Sell, "BBAS3", 10, 0)]);
    assert_eq!(d.calc(), Err(NoteError::DivisionByZero));
}

#[test]
fn totals_add_up_over_buys() {
    let d = draft(3 * UNIT, 2 * UNIT, 10 * UNIT, UNIT, vec![
        order(OrderType::Buy, "PETR4", 100, 1000 * UNIT),
        order(OrderType::Buy, "VALE3", 40, 2000 * UNIT),
        order(OrderType::Buy, "ITSA4", 10, 500 * UNIT),
    ]);
    let note = d.calc().unwrap();
    let sum: u64 = note.orders.iter().map(|o| o.order_value).sum();
    assert_eq!(note.brokerage.total_transacted, sum);
    assert_eq!(note.brokerage.total_transacted, 3500 * UNIT);
    assert_eq!(note.brokerage.total_purchased, 3500 * UNIT);
    assert_eq!(note.brokerage.total_income_tax, 0);
    let b = &note.brokerage;
    assert_eq!(
        b.total_cost,
        b.total_settlement_fee + b.total_emolument_fee + b.total_broker_fee + b.total_iss_tax
            + b.total_income_tax
    );
    assert_eq!(b.total_cost, 16 * UNIT);
    assert_eq!(b.id, 0);
    assert_eq!(b.broker, Broker { id: 7, name: "XP".to_string() });
}

#[test]
fn note_cost_leaves_withheld_tax_out() {
    let d = draft(UNIT, UNIT, UNIT, UNIT, vec![order(OrderType::Sell, "PETR4", 10, 1000 * UNIT)]);
    let note = d.calc().unwrap();
    assert_eq!(note.brokerage.total_income_tax, 5 * UNIT / 100);
    assert_eq!(note.brokerage.total_cost, 4 * UNIT);
}

#[test]
fn settlement_and_emolument_follow_the_note_formula() {
    // (3 / 3000) / 1000 = 0.000001 and (6 / 3000) / 2000 = 0.000001
    let d = draft(3 * UNIT, 6 * UNIT, 0, 0, vec![
        order(OrderType::Buy, "PETR4", 10, 1000 * UNIT),
        order(OrderType::Buy, "VALE3", 20, 2000 * UNIT),
    ]);
    let note = d.calc().unwrap();
    assert_eq!(note.orders[0].settlement_fee, 100);
    assert_eq!(note.orders[0].emolument_fee, 200);
    assert_eq!(note.orders[1].settlement_fee, 50);
    assert_eq!(note.orders[1].emolument_fee, 100);
    assert_eq!(note.orders[0].total_cost, 300);
    assert_eq!(note.orders[0].unit_value, 100 * UNIT);
    assert_eq!(note.orders[1].unit_value, 100 * UNIT);
}

#[test]
fn order_cost_adds_its_fees() {
    let d = draft(3 * UNIT, 6 * UNIT, 9 * UNIT, 3 * UNIT, vec![
        order(OrderType::Sell, "PETR4", 10, 1000 * UNIT),
        order(OrderType::Buy, "VALE3", 20, 2000 * UNIT),
        order(OrderType::Buy, "ITSA4", 7, 3000 * UNIT),
    ]);
    let note = d.calc().unwrap();
    for o in &note.orders {
        assert_eq!(
            o.total_cost,
            o.settlement_fee + o.emolument_fee + o.broker_fee + o.iss_tax + o.income_tax
        );
        assert_eq!(o.broker_fee, 3 * UNIT);
        assert_eq!(o.iss_tax, UNIT);
    }
    assert_eq!(note.orders[2].unit_value, 3000 * UNIT / 7);
    assert_eq!(note.brokerage.total_sold, 1000 * UNIT);
    assert_eq!(note.brokerage.total_purchased, 5000 * UNIT);
}

#[test]
fn unknown_order_type_passes_through() {
    let d = draft(0, 0, 4 * UNIT, 0, vec![
        order(OrderType::Other("X".to_string()), "PETR4", 10, 1000 * UNIT),
        order(OrderType::Sell, "VALE3", 10, 1000 * UNIT),
    ]);
    let note = d.calc().unwrap();
    assert_eq!(note.orders[0].order_type, OrderType::Other("X".to_string()));
    assert_eq!(note.orders[0].income_tax, 0);
    assert_eq!(note.orders[0].broker_fee, 2 * UNIT);
    assert_eq!(note.brokerage.total_purchased, 0);
    assert_eq!(note.brokerage.total_sold, 1000 * UNIT);
    assert_eq!(note.brokerage.total_transacted, 2000 * UNIT);
}

#[test]
fn figures_beyond_a_stored_integer_are_refused() {
    let d = draft(0, 0, 0, 0, vec![
        order(OrderType::Buy, "PETR4", 1, STORABLE_MAX),
        order(OrderType::Buy, "VALE3", 1, 1),
    ]);
    assert_eq!(d.calc(), Err(NoteError::AmountOutOfRange));
    let d = draft(STORABLE_MAX, 1, 0, 0, vec![order(OrderType::Buy, "PETR4", 1, UNIT)]);
    assert_eq!(d.calc(), Err(NoteError::AmountOutOfRange));
    let d = draft(0, 0, 0, 0, vec![order(OrderType::Buy, "PETR4", STORABLE_MAX + 1, UNIT)]);
    assert_eq!(d.calc(), Err(NoteError::AmountOutOfRange));
    // one hundred-millionth against one hundred-millionth: the share is far too large
    let d = draft(UNIT, 0, 0, 0, vec![order(OrderType::Buy, "PETR4", 1, 1)]);
    assert_eq!(d.calc(), Err(NoteError::AmountOutOfRange));
}

#[test]
fn income_tax_rate_is_five_hundred_thousandths() {
    assert_eq!(INCOME_TAX_NUMERATOR, 5);
    assert_eq!(INCOME_TAX_DENOMINATOR, 100_000);
    let d = draft(0, 0, 0, 0, vec![order(OrderType::Sell, "PETR4", 3, 123_456_789)]);
    let note = d.calc().unwrap();
    assert_eq!(note.orders[0].income_tax, 123_456_789 * 5 / 100_000);
}
