use vstd::prelude::*;

use crate::error::NoteError;
use crate::note::{
    has_zero_divisor, income_tax_of, order_value_total, part_of, sum_of, Brokerage, BrokerageNote,
    BrokerageNoteDraft, BrokerageOrder, BrokerageOrderDraft, OrderType, Part, INCOME_TAX_DENOMINATOR,
    INCOME_TAX_NUMERATOR, MONEY_SCALE, MONEY_SCALE_SQUARED, STORABLE_MAX,
};

verus! {

/// Adding the next order to a prefix adds its figure to the prefix's sum.
proof fn lemma_sum_step(orders: Seq<BrokerageOrderDraft>, i: int, part: Part)
    requires
        0 <= i < orders.len(),
    ensures
        sum_of(orders.take(i + 1), part) == sum_of(orders.take(i), part) + part_of(orders[i], part),
{
    assert(orders.take(i + 1).drop_last() =~= orders.take(i));
}

/// A prefix never sums to more than the whole sequence.
proof fn lemma_prefix_sum_le(orders: Seq<BrokerageOrderDraft>, k: int, part: Part)
    requires
        0 <= k <= orders.len(),
    ensures
        sum_of(orders.take(k), part) <= sum_of(orders, part),
    decreases orders.len(),
{
    if k == orders.len() {
        assert(orders.take(k) =~= orders);
    } else {
        let rest = orders.drop_last();
        assert(rest.take(k) =~= orders.take(k));
        lemma_prefix_sum_le(rest, k, part);
        lemma_part_nonnegative(orders.last(), part);
    }
}

proof fn lemma_part_nonnegative(o: BrokerageOrderDraft, part: Part)
    ensures
        0 <= part_of(o, part) <= o.order_value,
{
    lemma_income_tax_bounds(o.order_value);
}

proof fn lemma_income_tax_bounds(v: u64)
    ensures
        0 <= v * INCOME_TAX_NUMERATOR / INCOME_TAX_DENOMINATOR as int <= v,
{
    assert(0 <= v * 5 / 100000int <= v) by (nonlinear_arith);
}

proof fn lemma_quotient_bounds(a: int, b: int)
    requires
        0 <= a,
        1 <= b,
    ensures
        0 <= a / b <= a,
{
    assert(0 <= a / b <= a) by (nonlinear_arith)
        requires
            0 <= a,
            1 <= b,
    ;
}

proof fn lemma_share_operands(fee: u64, transacted: u64, value: u64)
    requires
        1 <= transacted,
        1 <= value,
    ensures
        fee * MONEY_SCALE_SQUARED <= u128::MAX,
        fee * MONEY_SCALE_SQUARED == fee * MONEY_SCALE * MONEY_SCALE,
        1 <= transacted * value <= u128::MAX,
{
    assert(fee * 10000000000000000int <= u128::MAX) by (nonlinear_arith);
    assert(fee * MONEY_SCALE_SQUARED == fee * MONEY_SCALE * MONEY_SCALE);
    assert(1 <= transacted * value <= u128::MAX) by (nonlinear_arith)
        requires
            1 <= transacted,
            1 <= value,
    ;
}

proof fn lemma_sum_nonnegative(orders: Seq<BrokerageOrderDraft>, part: Part)
    ensures
        sum_of(orders, part) >= 0,
    decreases orders.len(),
{
    if orders.len() > 0 {
        lemma_sum_nonnegative(orders.drop_last(), part);
        lemma_part_nonnegative(orders.last(), part);
    }
}

/// Computed orders carrying the drafts' values add up to the drafts' total value.
proof fn lemma_value_totals_agree(computed: Seq<BrokerageOrder>, drafts: Seq<BrokerageOrderDraft>)
    requires
        computed.len() == drafts.len(),
        forall|i: int| 0 <= i < computed.len() ==> (#[trigger] computed[i]).order_value == drafts[i].order_value,
    ensures
        order_value_total(computed) == sum_of(drafts, Part::Value),
    decreases computed.len(),
{
    if computed.len() > 0 {
        let (c, d) = (computed.drop_last(), drafts.drop_last());
        assert forall|i: int| 0 <= i < c.len() implies (#[trigger] c[i]).order_value == d[i].order_value by {
            assert(c[i] == computed[i]);
        }
        lemma_value_totals_agree(c, d);
    }
}

/// Law: once a note is calculated, its total transacted is the sum of the
/// order values of its orders.
pub proof fn law_transacted_is_sum_of_order_values(draft: BrokerageNoteDraft, note: BrokerageNote)
    requires
        draft.calculable(),
        draft.calculated(note),
    ensures
        note.brokerage.total_transacted == order_value_total(note.orders@),
{
    assert forall|i: int| 0 <= i < note.orders@.len() implies (#[trigger] note.orders@[i]).order_value
        == draft.orders@[i].order_value by {
        assert(note.orders@[i] == draft.expected_order(i));
    }
    lemma_value_totals_agree(note.orders@, draft.orders@);
    lemma_sum_nonnegative(draft.orders@, Part::Value);
}

/// Law: once a note is calculated, its total cost is the sum of its settlement,
/// emolument and broker fees, its ISS tax and its total income tax. This holds
/// where the sales withhold no income tax: the withheld tax is kept out of the
/// total cost.
pub proof fn law_cost_is_sum_of_fees(draft: BrokerageNoteDraft, note: BrokerageNote)
    requires
        draft.calculable(),
        draft.calculated(note),
        note.brokerage.total_income_tax == 0,
    ensures
        note.brokerage.total_cost == note.brokerage.total_settlement_fee
            + note.brokerage.total_emolument_fee + note.brokerage.total_broker_fee
            + note.brokerage.total_iss_tax + note.brokerage.total_income_tax,
{
}

impl BrokerageNoteDraft {
    /// Apportions the note's fees over its orders.
    ///
    /// The total transacted is the sum of the order values; broker fee and ISS
    /// tax are split equally over the orders; each sale withholds income tax at a
    /// fixed rate; settlement and emolument fees are the note's fee divided by
    /// the total transacted, divided again by the order's value. The note's total
    /// cost adds up the four broker-supplied fees only: the income tax withheld
    /// on the sales counts in the total income tax but not in the cost.
    /// Divisions round down to the money unit.
    pub fn calc(&self) -> (r: Result<BrokerageNote, NoteError>)
        ensures
            self.count() == 0 ==> r == Err::<BrokerageNote, NoteError>(NoteError::EmptyOrderSet),
            self.count() > 0 && has_zero_divisor(self.orders@) ==> r == Err::<
                BrokerageNote,
                NoteError,
            >(NoteError::DivisionByZero),
            self.count() > 0 && !has_zero_divisor(self.orders@) && !self.fits() ==> r == Err::<
                BrokerageNote,
                NoteError,
            >(NoteError::AmountOutOfRange),
            self.calculable() ==> (r matches Ok(note) && self.calculated(note)),
            r matches Ok(note) ==> self.calculable() && note.storable(),
    {
        let n = self.orders.len();
        if n == 0 {
            return Err(NoteError::EmptyOrderSet);
        }
        let mut i: usize = 0;
        while i < n
            invariant
                n == self.orders@.len(),
                i <= n,
                forall|j: int|
                    0 <= j < i ==> !((#[trigger] self.orders@[j]).amount == 0 || self.orders@[j].order_value == 0),
            decreases n - i,
        {
            if self.orders[i].amount == 0 || self.orders[i].order_value == 0 {
                return Err(NoteError::DivisionByZero);
            }
            i = i + 1;
        }
        assert(!has_zero_divisor(self.orders@));

        let ghost orders = self.orders@;
        let mut transacted: u64 = 0;
        let mut purchased: u64 = 0;
        let mut sold: u64 = 0;
        let mut income_tax: u64 = 0;
        i = 0;
        while i < n
            invariant
                n == orders.len(),
                orders == self.orders@,
                i <= n,
                transacted == sum_of(orders.take(i as int), Part::Value),
                purchased == sum_of(orders.take(i as int), Part::Purchased),
                sold == sum_of(orders.take(i as int), Part::Sold),
                income_tax == sum_of(orders.take(i as int), Part::IncomeTax),
                purchased + sold <= transacted,
                income_tax <= transacted,
                transacted <= STORABLE_MAX,
                i > 0 ==> transacted >= 1,
                !has_zero_divisor(orders),
                forall|j: int| 0 <= j < i ==> (#[trigger] orders[j]).amount <= STORABLE_MAX,
                forall|j: int| 0 <= j < i ==> (#[trigger] orders[j]).order_value <= STORABLE_MAX,
            decreases n - i,
        {
            let order = &self.orders[i];
            assert(!(orders[i as int].amount == 0 || orders[i as int].order_value == 0));
            proof {
                lemma_sum_step(orders, i as int, Part::Value);
                lemma_sum_step(orders, i as int, Part::Purchased);
                lemma_sum_step(orders, i as int, Part::Sold);
                lemma_sum_step(orders, i as int, Part::IncomeTax);
            }
            if order.amount > STORABLE_MAX {
                return Err(NoteError::AmountOutOfRange);
            }
            if order.order_value > STORABLE_MAX - transacted {
                proof {
                    lemma_prefix_sum_le(orders, i + 1, Part::Value);
                }
                return Err(NoteError::AmountOutOfRange);
            }
            transacted = transacted + order.order_value;
            match order.order_type {
                OrderType::Buy => {
                    purchased = purchased + order.order_value;
                },
                OrderType::Sell => {
                    sold = sold + order.order_value;
                    proof {
                        lemma_income_tax_bounds(order.order_value);
                    }
                    let tax = (order.order_value as u128 * INCOME_TAX_NUMERATOR as u128
                        / INCOME_TAX_DENOMINATOR as u128) as u64;
                    income_tax = income_tax + tax;
                },
                OrderType::Other(_) => {},
            }
            i = i + 1;
        }
        assert(orders.take(n as int) =~= orders);

        let note_cost: u128 = self.brokerage.total_settlement_fee as u128
            + self.brokerage.total_emolument_fee as u128 + self.brokerage.total_broker_fee as u128
            + self.brokerage.total_iss_tax as u128;
        if note_cost > STORABLE_MAX as u128 {
            return Err(NoteError::AmountOutOfRange);
        }
        let broker_fee: u64 = self.brokerage.total_broker_fee / n as u64;
        let iss_tax: u64 = self.brokerage.total_iss_tax / n as u64;
        proof {
            lemma_quotient_bounds(self.brokerage.total_broker_fee as int, n as int);
            lemma_quotient_bounds(self.brokerage.total_iss_tax as int, n as int);
        }
        let settlement_total = self.brokerage.total_settlement_fee;
        let emolument_total = self.brokerage.total_emolument_fee;

        let mut out: Vec<BrokerageOrder> = Vec::new();
        i = 0;
        while i < n
            invariant
                n == orders.len(),
                orders == self.orders@,
                n == self.count(),
                i <= n,
                !has_zero_divisor(orders),
                transacted == self.transacted(),
                1 <= transacted <= STORABLE_MAX,
                settlement_total == self.brokerage.total_settlement_fee,
                emolument_total == self.brokerage.total_emolument_fee,
                broker_fee == self.brokerage.total_broker_fee as int / self.count(),
                iss_tax == self.brokerage.total_iss_tax as int / self.count(),
                broker_fee <= STORABLE_MAX,
                iss_tax <= STORABLE_MAX,
                forall|j: int| 0 <= j < n ==> (#[trigger] orders[j]).amount <= STORABLE_MAX,
                forall|j: int| 0 <= j < n ==> (#[trigger] orders[j]).order_value <= STORABLE_MAX,
                out@.len() == i,
                forall|j: int| 0 <= j < i ==> self.order_cost(j) <= STORABLE_MAX,
                forall|j: int| 0 <= j < i ==> #[trigger] out@[j] == self.expected_order(j),
                forall|j: int| 0 <= j < i ==> (#[trigger] out@[j]).storable(),
            decreases n - i,
        {
            let order = &self.orders[i];
            assert(!(orders[i as int].amount == 0 || orders[i as int].order_value == 0));
            proof {
                lemma_share_operands(settlement_total, transacted, order.order_value);
                lemma_share_operands(emolument_total, transacted, order.order_value);
            }
            let divisor: u128 = transacted as u128 * order.order_value as u128;
            let settlement: u128 = settlement_total as u128 * MONEY_SCALE_SQUARED / divisor;
            let emolument: u128 = emolument_total as u128 * MONEY_SCALE_SQUARED / divisor;
            proof {
                lemma_quotient_bounds(settlement_total * MONEY_SCALE_SQUARED, divisor as int);
                lemma_quotient_bounds(emolument_total * MONEY_SCALE_SQUARED, divisor as int);
                lemma_income_tax_bounds(order.order_value);
                lemma_quotient_bounds(order.order_value as int, order.amount as int);
            }
            let income: u64 = match order.order_type {
                OrderType::Sell => (order.order_value as u128 * INCOME_TAX_NUMERATOR as u128
                    / INCOME_TAX_DENOMINATOR as u128) as u64,
                _ => 0,
            };
            assert(income == income_tax_of(orders[i as int]));
            if settlement > STORABLE_MAX as u128 || emolument > STORABLE_MAX as u128 {
                assert(!self.fits());
                return Err(NoteError::AmountOutOfRange);
            }
            let cost: u128 = settlement + emolument + broker_fee as u128 + iss_tax as u128
                + income as u128;
            if cost > STORABLE_MAX as u128 {
                assert(!self.fits());
                return Err(NoteError::AmountOutOfRange);
            }
            let computed = BrokerageOrder {
                id: 0,
                order_type: order.order_type.copied(),
                symbol: order.symbol.clone(),
                amount: order.amount,
                order_value: order.order_value,
                unit_value: order.order_value / order.amount,
                settlement_fee: settlement as u64,
                emolument_fee: emolument as u64,
                broker_fee,
                iss_tax,
                income_tax: income,
                total_cost: cost as u64,
            };
            out.push(computed);
            i = i + 1;
        }

        let brokerage = Brokerage {
            id: 0,
            broker: crate::broker::Broker {
                id: self.brokerage.broker.id,
                name: self.brokerage.broker.name.clone(),
            },
            trading_date: self.brokerage.trading_date,
            total_settlement_fee: settlement_total,
            total_emolument_fee: emolument_total,
            total_broker_fee: self.brokerage.total_broker_fee,
            total_iss_tax: self.brokerage.total_iss_tax,
            total_income_tax: income_tax,
            total_cost: note_cost as u64,
            total_transacted: transacted,
            total_purchased: purchased,
            total_sold: sold,
        };
        Ok(BrokerageNote { brokerage, orders: out })
    }
}

} // verus!
