use vstd::prelude::*;

use crate::broker::{changed_outcome, Broker};
use crate::date::{is_day_text, TradingDate};
use crate::error::NoteError;
use crate::note::{Brokerage, BrokerageNote, BrokerageNoteDraft, BrokerageOrder, OrderType, has_zero_divisor, type_tag};
use crate::page::{
    page_count, page_window, runnable, total_pages, PageRequest, PageResponse, SortDirection,
};
use crate::sql::{
    begin, binds_int, binds_text, commit, natural_column, execute, holds_int, holds_text, insert,
    int_column, is_store_failure, query, text_column, Param, SqlValue,
};

verus! {

pub const NOTE_COLUMNS: usize = 13;

pub const ORDER_COLUMNS: usize = 12;

/// One page of notes, newest id first among notes of one day. `?1` is the
/// broker filter or NULL, `?2` is 1 for ascending dates and 0 for descending,
/// `?3` and `?4` are the limit and the offset.
pub const SELECT_NOTE_PAGE: &'static str = "SELECT nc.id, nc.corretora_id, c.nome, \
    nc.total_taxa_liquidacao, nc.total_emolumentos, nc.total_corretagem, nc.total_iss, \
    nc.total_irrf, nc.total_custo, nc.total_transacionado, nc.total_comprado, \
    nc.total_vendido, nc.data_pregao \
    FROM nota_corretagem nc INNER JOIN corretora c ON nc.corretora_id = c.id \
    WHERE (?1 IS NULL OR nc.corretora_id = ?1) \
    ORDER BY CASE WHEN ?2 = 1 THEN DATE(nc.data_pregao) END ASC, \
    CASE WHEN ?2 = 0 THEN DATE(nc.data_pregao) END DESC, nc.id DESC \
    LIMIT ?3 OFFSET ?4";

/// Number of notes; `?1` is the broker filter or NULL.
pub const COUNT_NOTES: &'static str = "SELECT COUNT(nc.id) \
    FROM nota_corretagem nc INNER JOIN corretora c ON nc.corretora_id = c.id \
    WHERE (?1 IS NULL OR nc.corretora_id = ?1)";

pub const SELECT_NOTE_BY_ID: &'static str = "SELECT nc.id, nc.corretora_id, c.nome, \
    nc.total_taxa_liquidacao, nc.total_emolumentos, nc.total_corretagem, nc.total_iss, \
    nc.total_irrf, nc.total_custo, nc.total_transacionado, nc.total_comprado, \
    nc.total_vendido, nc.data_pregao \
    FROM nota_corretagem nc INNER JOIN corretora c ON nc.corretora_id = c.id \
    WHERE nc.id = ?1";

pub const SELECT_ORDERS_BY_NOTE: &'static str = "SELECT id, tipo, papel, quantidade, \
    valor_ordem, valor_unidade, taxa_liquidacao, emolumentos, corretagem, iss, irrf, \
    total_custo FROM nota_corretagem_ordem WHERE nota_corretagem_id = ?1 ORDER BY id ASC";

pub const INSERT_NOTE: &'static str = "INSERT INTO nota_corretagem (corretora_id, \
    total_taxa_liquidacao, total_emolumentos, total_corretagem, total_iss, total_irrf, \
    total_custo, total_transacionado, total_comprado, total_vendido, data_pregao) \
    VALUES (?1, ?2, ?3, ?4, ?5, ?6, ?7, ?8, ?9, ?10, ?11)";

pub const UPDATE_NOTE: &'static str = "UPDATE nota_corretagem SET corretora_id = ?1, \
    total_taxa_liquidacao = ?2, total_emolumentos = ?3, total_corretagem = ?4, \
    total_iss = ?5, total_irrf = ?6, total_custo = ?7, total_transacionado = ?8, \
    total_comprado = ?9, total_vendido = ?10, data_pregao = ?11 WHERE id = ?12";

pub const INSERT_ORDER: &'static str = "INSERT INTO nota_corretagem_ordem (nota_corretagem_id, \
    tipo, papel, quantidade, valor_ordem, valor_unidade, taxa_liquidacao, emolumentos, \
    corretagem, iss, irrf, total_custo) \
    VALUES (?1, ?2, ?3, ?4, ?5, ?6, ?7, ?8, ?9, ?10, ?11, ?12)";

pub const DELETE_ORDERS_OF_NOTE: &'static str =
    "DELETE FROM nota_corretagem_ordem WHERE nota_corretagem_id = ?1";

pub const DELETE_NOTE: &'static str = "DELETE FROM nota_corretagem WHERE id = ?1";

/// `row` is `b` as the note queries return it.
pub open spec fn is_brokerage_row(row: Seq<SqlValue>, b: Brokerage) -> bool {
    &&& row.len() == NOTE_COLUMNS
    &&& holds_int(row[0], b.id as int)
    &&& holds_int(row[1], b.broker.id as int)
    &&& holds_text(row[2], b.broker.name@)
    &&& holds_int(row[3], b.total_settlement_fee as int)
    &&& holds_int(row[4], b.total_emolument_fee as int)
    &&& holds_int(row[5], b.total_broker_fee as int)
    &&& holds_int(row[6], b.total_iss_tax as int)
    &&& holds_int(row[7], b.total_income_tax as int)
    &&& holds_int(row[8], b.total_cost as int)
    &&& holds_int(row[9], b.total_transacted as int)
    &&& holds_int(row[10], b.total_purchased as int)
    &&& holds_int(row[11], b.total_sold as int)
    &&& holds_text(row[12], b.trading_date.text())
}

/// `row` has the shape of a note row: integers where the note has integers,
/// non-negative ones for its money figures, text for the broker's name, and a
/// calendar day as the trading date.
pub open spec fn is_note_row_shape(row: Seq<SqlValue>) -> bool {
    &&& row[0] is Integer
    &&& row[1] is Integer
    &&& row[2] is Text
    &&& forall|i: int| 3 <= i < 12 ==> ((#[trigger] row[i]) matches SqlValue::Integer(n) && n >= 0)
    &&& row[12] matches SqlValue::Text(t) && is_day_text(t@)
}

/// `row` has the shape of an order row.
pub open spec fn is_order_row_shape(row: Seq<SqlValue>) -> bool {
    &&& row[0] is Integer
    &&& row[1] is Text
    &&& row[2] is Text
    &&& forall|i: int| 3 <= i < ORDER_COLUMNS ==> ((#[trigger] row[i]) matches SqlValue::Integer(n) && n >= 0)
}

/// `row` is `o` as the order query returns it.
pub open spec fn is_order_row(row: Seq<SqlValue>, o: BrokerageOrder) -> bool {
    &&& row.len() == ORDER_COLUMNS
    &&& holds_int(row[0], o.id as int)
    &&& holds_text(row[1], type_tag(o.order_type))
    &&& holds_text(row[2], o.symbol@)
    &&& holds_int(row[3], o.amount as int)
    &&& holds_int(row[4], o.order_value as int)
    &&& holds_int(row[5], o.unit_value as int)
    &&& holds_int(row[6], o.settlement_fee as int)
    &&& holds_int(row[7], o.emolument_fee as int)
    &&& holds_int(row[8], o.broker_fee as int)
    &&& holds_int(row[9], o.iss_tax as int)
    &&& holds_int(row[10], o.income_tax as int)
    &&& holds_int(row[11], o.total_cost as int)
}

/// `ps` binds the columns of the note row of `b`, its id aside.
pub open spec fn binds_brokerage(ps: Seq<Param>, b: Brokerage) -> bool {
    &&& ps.len() == 11
    &&& binds_int(ps[0], b.broker.id as int)
    &&& binds_int(ps[1], b.total_settlement_fee as int)
    &&& binds_int(ps[2], b.total_emolument_fee as int)
    &&& binds_int(ps[3], b.total_broker_fee as int)
    &&& binds_int(ps[4], b.total_iss_tax as int)
    &&& binds_int(ps[5], b.total_income_tax as int)
    &&& binds_int(ps[6], b.total_cost as int)
    &&& binds_int(ps[7], b.total_transacted as int)
    &&& binds_int(ps[8], b.total_purchased as int)
    &&& binds_int(ps[9], b.total_sold as int)
    &&& binds_text(ps[10], b.trading_date.text())
}

/// `ps` binds the columns of the order row of `o` in the note `note_id`, its id aside.
pub open spec fn binds_order(ps: Seq<Param>, note_id: int, o: BrokerageOrder) -> bool {
    &&& ps.len() == 12
    &&& binds_int(ps[0], note_id)
    &&& binds_text(ps[1], type_tag(o.order_type))
    &&& binds_text(ps[2], o.symbol@)
    &&& binds_int(ps[3], o.amount as int)
    &&& binds_int(ps[4], o.order_value as int)
    &&& binds_int(ps[5], o.unit_value as int)
    &&& binds_int(ps[6], o.settlement_fee as int)
    &&& binds_int(ps[7], o.emolument_fee as int)
    &&& binds_int(ps[8], o.broker_fee as int)
    &&& binds_int(ps[9], o.iss_tax as int)
    &&& binds_int(ps[10], o.income_tax as int)
    &&& binds_int(ps[11], o.total_cost as int)
}

/// `ps` binds the filter, the direction, the limit and the offset of a page query.
pub open spec fn binds_page(
    ps: Seq<Param>,
    broker_id: Option<i64>,
    direction: SortDirection,
    limit: int,
    offset: int,
) -> bool {
    &&& ps.len() == 4
    &&& match broker_id {
        Some(id) => binds_int(ps[0], id as int),
        None => ps[0] is Null,
    }
    &&& binds_int(ps[1], if direction is Asc { 1 } else { 0 })
    &&& binds_int(ps[2], limit)
    &&& binds_int(ps[3], offset)
}

pub open spec fn binds_filter(ps: Seq<Param>, broker_id: Option<i64>) -> bool {
    &&& ps.len() == 1
    &&& match broker_id {
        Some(id) => binds_int(ps[0], id as int),
        None => ps[0] is Null,
    }
}

/// The parameters of the note insert.
pub fn brokerage_params(b: &Brokerage) -> (r: Vec<Param>)
    requires
        b.storable(),
    ensures
        binds_brokerage(r@, *b),
{
    vec![
        Param::Integer(b.broker.id),
        Param::Integer(b.total_settlement_fee as i64),
        Param::Integer(b.total_emolument_fee as i64),
        Param::Integer(b.total_broker_fee as i64),
        Param::Integer(b.total_iss_tax as i64),
        Param::Integer(b.total_income_tax as i64),
        Param::Integer(b.total_cost as i64),
        Param::Integer(b.total_transacted as i64),
        Param::Integer(b.total_purchased as i64),
        Param::Integer(b.total_sold as i64),
        Param::Text(b.trading_date.to_text()),
    ]
}

/// The parameters of the note update: those of the insert, then the id.
pub fn update_params(id: i64, b: &Brokerage) -> (r: Vec<Param>)
    requires
        b.storable(),
    ensures
        r@.len() == 12,
        binds_brokerage(r@.take(11), *b),
        binds_int(r@[11], id as int),
{
    let mut ps = brokerage_params(b);
    let ghost first = ps@;
    ps.push(Param::Integer(id));
    assert(ps@.take(11) =~= first);
    ps
}

/// The parameters of the order insert.
pub fn order_params(note_id: i64, o: &BrokerageOrder) -> (r: Vec<Param>)
    requires
        o.storable(),
    ensures
        binds_order(r@, note_id as int, *o),
{
    vec![
        Param::Integer(note_id),
        Param::Text(o.order_type.tag()),
        Param::Text(o.symbol.clone()),
        Param::Integer(o.amount as i64),
        Param::Integer(o.order_value as i64),
        Param::Integer(o.unit_value as i64),
        Param::Integer(o.settlement_fee as i64),
        Param::Integer(o.emolument_fee as i64),
        Param::Integer(o.broker_fee as i64),
        Param::Integer(o.iss_tax as i64),
        Param::Integer(o.income_tax as i64),
        Param::Integer(o.total_cost as i64),
    ]
}

/// The parameters of a statement keyed by one id.
pub fn id_params(id: i64) -> (r: Vec<Param>)
    ensures
        r@.len() == 1,
        binds_int(r@[0], id as int),
{
    vec![Param::Integer(id)]
}

fn filter_param(broker_id: Option<i64>) -> (r: Param)
    ensures
        match broker_id {
            Some(id) => binds_int(r, id as int),
            None => r is Null,
        },
{
    match broker_id {
        Some(id) => Param::Integer(id),
        None => Param::Null,
    }
}

/// The parameters of the page query.
pub fn page_params(broker_id: Option<i64>, direction: SortDirection, limit: i64, offset: i64) -> (r:
    Vec<Param>)
    ensures
        binds_page(r@, broker_id, direction, limit as int, offset as int),
{
    let ascending: i64 = match direction {
        SortDirection::Asc => 1,
        SortDirection::Desc => 0,
    };
    vec![filter_param(broker_id), Param::Integer(ascending), Param::Integer(limit), Param::Integer(offset)]
}

/// The note in a row of a note query.
pub fn brokerage_from_row(row: &Vec<SqlValue>) -> (r: Result<Brokerage, NoteError>)
    requires
        row@.len() == NOTE_COLUMNS,
    ensures
        r matches Ok(b) ==> is_brokerage_row(row@, b),
        r is Err <==> !is_note_row_shape(row@),
        r matches Err(e) ==> e is MalformedRow,
{
    let id = int_column(row, 0)?;
    let broker_id = int_column(row, 1)?;
    let name = text_column(row, 2)?;
    let total_settlement_fee = natural_column(row, 3)?;
    let total_emolument_fee = natural_column(row, 4)?;
    let total_broker_fee = natural_column(row, 5)?;
    let total_iss_tax = natural_column(row, 6)?;
    let total_income_tax = natural_column(row, 7)?;
    let total_cost = natural_column(row, 8)?;
    let total_transacted = natural_column(row, 9)?;
    let total_purchased = natural_column(row, 10)?;
    let total_sold = natural_column(row, 11)?;
    let date = text_column(row, 12)?;
    let trading_date = match TradingDate::from_text(&date) {
        Some(d) => d,
        None => return Err(NoteError::MalformedRow),
    };
    Ok(Brokerage {
        id,
        broker: Broker { id: broker_id, name },
        trading_date,
        total_settlement_fee,
        total_emolument_fee,
        total_broker_fee,
        total_iss_tax,
        total_income_tax,
        total_cost,
        total_transacted,
        total_purchased,
        total_sold,
    })
}

/// The notes in the rows of a note query, in the same order.
pub fn brokerages_from_rows(rows: &Vec<Vec<SqlValue>>) -> (r: Result<Vec<Brokerage>, NoteError>)
    requires
        forall|i: int| 0 <= i < rows@.len() ==> (#[trigger] rows@[i])@.len() == NOTE_COLUMNS,
    ensures
        r matches Ok(bs) ==> bs@.len() == rows@.len() && forall|i: int|
            0 <= i < rows@.len() ==> is_brokerage_row(#[trigger] rows@[i]@, bs@[i]),
        r is Err <==> exists|i: int| 0 <= i < rows@.len() && !is_note_row_shape(#[trigger] rows@[i]@),
        r matches Err(e) ==> e is MalformedRow,
{
    let mut out: Vec<Brokerage> = Vec::new();
    let mut i: usize = 0;
    while i < rows.len()
        invariant
            i <= rows@.len(),
            forall|j: int| 0 <= j < rows@.len() ==> (#[trigger] rows@[j])@.len() == NOTE_COLUMNS,
            out@.len() == i,
            forall|j: int| 0 <= j < i ==> is_brokerage_row(#[trigger] rows@[j]@, out@[j]),
            forall|j: int| 0 <= j < i ==> is_note_row_shape(#[trigger] rows@[j]@),
        decreases rows@.len() - i,
    {
        let b = brokerage_from_row(&rows[i])?;
        out.push(b);
        i = i + 1;
    }
    Ok(out)
}

/// The order in a row of the order query.
pub fn order_from_row(row: &Vec<SqlValue>) -> (r: Result<BrokerageOrder, NoteError>)
    requires
        row@.len() == ORDER_COLUMNS,
    ensures
        r matches Ok(o) ==> is_order_row(row@, o),
        r is Err <==> !is_order_row_shape(row@),
        r matches Err(e) ==> e is MalformedRow,
{
    let id = int_column(row, 0)?;
    let tag = text_column(row, 1)?;
    let symbol = text_column(row, 2)?;
    let amount = natural_column(row, 3)?;
    let order_value = natural_column(row, 4)?;
    let unit_value = natural_column(row, 5)?;
    let settlement_fee = natural_column(row, 6)?;
    let emolument_fee = natural_column(row, 7)?;
    let broker_fee = natural_column(row, 8)?;
    let iss_tax = natural_column(row, 9)?;
    let income_tax = natural_column(row, 10)?;
    let total_cost = natural_column(row, 11)?;
    Ok(BrokerageOrder {
        id,
        order_type: OrderType::from_tag(tag),
        symbol,
        amount,
        order_value,
        unit_value,
        settlement_fee,
        emolument_fee,
        broker_fee,
        iss_tax,
        income_tax,
        total_cost,
    })
}

/// The orders in the rows of the order query, in the same order.
pub fn orders_from_rows(rows: &Vec<Vec<SqlValue>>) -> (r: Result<Vec<BrokerageOrder>, NoteError>)
    requires
        forall|i: int| 0 <= i < rows@.len() ==> (#[trigger] rows@[i])@.len() == ORDER_COLUMNS,
    ensures
        r matches Ok(os) ==> os@.len() == rows@.len() && forall|i: int|
            0 <= i < rows@.len() ==> is_order_row(#[trigger] rows@[i]@, os@[i]),
        r is Err <==> exists|i: int| 0 <= i < rows@.len() && !is_order_row_shape(#[trigger] rows@[i]@),
        r matches Err(e) ==> e is MalformedRow,
{
    let mut out: Vec<BrokerageOrder> = Vec::new();
    let mut i: usize = 0;
    while i < rows.len()
        invariant
            i <= rows@.len(),
            forall|j: int| 0 <= j < rows@.len() ==> (#[trigger] rows@[j])@.len() == ORDER_COLUMNS,
            out@.len() == i,
            forall|j: int| 0 <= j < i ==> is_order_row(#[trigger] rows@[j]@, out@[j]),
            forall|j: int| 0 <= j < i ==> is_order_row_shape(#[trigger] rows@[j]@),
        decreases rows@.len() - i,
    {
        let o = order_from_row(&rows[i])?;
        out.push(o);
        i = i + 1;
    }
    Ok(out)
}

/// The count in the single row of a count query.
pub fn count_from_rows(rows: &Vec<Vec<SqlValue>>) -> (r: Result<u64, NoteError>)
    requires
        forall|i: int| 0 <= i < rows@.len() ==> (#[trigger] rows@[i])@.len() == 1,
    ensures
        r matches Ok(n) ==> rows@.len() == 1 && holds_int(rows@[0]@[0], n as int),
        r is Err <==> !(rows@.len() == 1 && (rows@[0]@[0] matches SqlValue::Integer(n) && n >= 0)),
        r matches Err(e) ==> e is MalformedRow,
{
    if rows.len() != 1 {
        return Err(NoteError::MalformedRow);
    }
    natural_column(&rows[0], 0)
}

/// The note with id `id` among the rows of the query by id: none is `NotFound`.
pub fn note_of_rows(rows: &Vec<Vec<SqlValue>>, id: i64) -> (r: Result<Brokerage, NoteError>)
    requires
        forall|i: int| 0 <= i < rows@.len() ==> (#[trigger] rows@[i])@.len() == NOTE_COLUMNS,
    ensures
        rows@.len() == 0 <==> r == Err::<Brokerage, NoteError>(NoteError::NotFound),
        r is Ok <==> rows@.len() > 0 && is_note_row_shape(rows@[0]@) && holds_int(rows@[0]@[0], id as int),
        r matches Ok(b) ==> b.id == id && is_brokerage_row(rows@[0]@, b),
        r matches Err(e) ==> e is NotFound || e is MalformedRow,
{
    if rows.len() == 0 {
        return Err(NoteError::NotFound);
    }
    let b = brokerage_from_row(&rows[0])?;
    if b.id != id {
        return Err(NoteError::MalformedRow);
    }
    Ok(b)
}

/// The notes of one page, by trading date in the requested direction, then
/// by id from the newest; `broker_id` keeps only that broker's notes.
pub fn select_brokerage_note_page(
    conn: &rusqlite::Connection,
    page_request: &PageRequest,
    broker_id: Option<i64>,
) -> (r: Result<Vec<Brokerage>, NoteError>)
    ensures
        page_request.size == 0 ==> r == Err::<Vec<Brokerage>, NoteError>(
            NoteError::InvalidPageRequest,
        ),
        page_request.size > 0 && !runnable(*page_request) ==> r == Err::<Vec<Brokerage>, NoteError>(
            NoteError::AmountOutOfRange,
        ),
        runnable(*page_request) ==> (r matches Err(e) ==> is_store_failure(e) || e is MalformedRow),
{
    let (limit, offset) = page_window(page_request)?;
    let params = page_params(broker_id, page_request.direction, limit, offset);
    let rows = query(conn, SELECT_NOTE_PAGE, &params, NOTE_COLUMNS)?;
    brokerages_from_rows(&rows)
}

/// Number of notes, of one broker where `broker_id` is given.
pub fn count_total_brokerage(conn: &rusqlite::Connection, broker_id: Option<i64>) -> (r: Result<
    u64,
    NoteError,
>)
    ensures
        r matches Err(e) ==> is_store_failure(e) || e is MalformedRow,
{
    let params = vec![filter_param(broker_id)];
    let rows = query(conn, COUNT_NOTES, &params, 1)?;
    count_from_rows(&rows)
}

/// One page of notes with the size of the whole listing.
pub fn get_brokerage_note_page(
    conn: &rusqlite::Connection,
    page_request: &PageRequest,
    broker_id: Option<i64>,
) -> (r: Result<PageResponse<Brokerage>, NoteError>)
    ensures
        page_request.size == 0 ==> r == Err::<PageResponse<Brokerage>, NoteError>(
            NoteError::InvalidPageRequest,
        ),
        page_request.size > 0 && !runnable(*page_request) ==> r == Err::<
            PageResponse<Brokerage>,
            NoteError,
        >(NoteError::AmountOutOfRange),
        r matches Ok(p) ==> p.total_pages == page_count(
            p.total_elements as int,
            page_request.size as int,
        ),
        runnable(*page_request) ==> (r matches Err(e) ==> is_store_failure(e) || e is MalformedRow),
{
    let content = select_brokerage_note_page(conn, page_request, broker_id)?;
    let total_elements = count_total_brokerage(conn, broker_id)?;
    Ok(PageResponse::new(content, total_pages(total_elements, page_request.size), total_elements))
}

/// The note with the given id, without its orders.
pub fn select_brokerage_by_id(conn: &rusqlite::Connection, id: i64) -> (r: Result<
    Brokerage,
    NoteError,
>)
    ensures
        r matches Ok(b) ==> b.id == id,
        r matches Err(e) ==> is_store_failure(e) || e is NotFound || e is MalformedRow,
{
    let rows = query(conn, SELECT_NOTE_BY_ID, &id_params(id), NOTE_COLUMNS)?;
    note_of_rows(&rows, id)
}

/// The orders of the note with the given id, in the order they were stored.
pub fn select_brokerage_orders_by_brokerage_id(conn: &rusqlite::Connection, id: i64) -> (r: Result<
    Vec<BrokerageOrder>,
    NoteError,
>)
    ensures
        r matches Err(e) ==> is_store_failure(e) || e is MalformedRow,
{
    let rows = query(conn, SELECT_ORDERS_BY_NOTE, &id_params(id), ORDER_COLUMNS)?;
    orders_from_rows(&rows)
}

/// The note with the given id and its orders; an unknown id is `NotFound`.
pub fn get_brokerage_note(conn: &rusqlite::Connection, id: i64) -> (r: Result<
    BrokerageNote,
    NoteError,
>)
    ensures
        r matches Ok(n) ==> n.brokerage.id == id,
        r matches Err(e) ==> is_store_failure(e) || e is NotFound || e is MalformedRow,
{
    let brokerage = select_brokerage_by_id(conn, id)?;
    let orders = select_brokerage_orders_by_brokerage_id(conn, id)?;
    Ok(BrokerageNote { brokerage, orders })
}

/// Stores the note row and returns its new id.
pub fn insert_new_brokerage(conn: &rusqlite::Connection, brokerage: &Brokerage) -> (r: Result<
    i64,
    NoteError,
>)
    requires
        brokerage.storable(),
    ensures
        r matches Err(e) ==> is_store_failure(e),
{
    insert(conn, INSERT_NOTE, &brokerage_params(brokerage))
}

/// Stores the orders under the note `note_id` and returns them with their new ids.
pub fn insert_new_brokerage_orders(
    conn: &rusqlite::Connection,
    note_id: i64,
    orders: &Vec<BrokerageOrder>,
) -> (r: Result<Vec<BrokerageOrder>, NoteError>)
    requires
        forall|i: int| 0 <= i < orders@.len() ==> (#[trigger] orders@[i]).storable(),
    ensures
        orders@.len() == 0 ==> (r matches Ok(stored) && stored@.len() == 0),
        r matches Ok(stored) ==> stored@.len() == orders@.len() && forall|i: int|
            0 <= i < orders@.len() ==> #[trigger] stored@[i] == (BrokerageOrder {
                id: stored@[i].id,
                ..orders@[i]
            }),
        r matches Err(e) ==> is_store_failure(e),
{
    let mut stored: Vec<BrokerageOrder> = Vec::new();
    let mut i: usize = 0;
    while i < orders.len()
        invariant
            i <= orders@.len(),
            forall|j: int| 0 <= j < orders@.len() ==> (#[trigger] orders@[j]).storable(),
            stored@.len() == i,
            forall|j: int|
                0 <= j < i ==> #[trigger] stored@[j] == (BrokerageOrder {
                    id: stored@[j].id,
                    ..orders@[j]
                }),
        decreases orders@.len() - i,
    {
        let id = insert(conn, INSERT_ORDER, &order_params(note_id, &orders[i]))?;
        stored.push(orders[i].with_id(id));
        i = i + 1;
    }
    Ok(stored)
}

/// Removes every order of the note `note_id`.
pub fn delete_brokerage_orders(conn: &rusqlite::Connection, note_id: i64) -> (r: Result<
    (),
    NoteError,
>)
    ensures
        r matches Err(e) ==> is_store_failure(e),
{
    execute(conn, DELETE_ORDERS_OF_NOTE, &id_params(note_id))?;
    Ok(())
}

/// Calculates the note and stores it with its orders in one transaction.
/// Returns the stored note, with the ids the store gave it and its orders.
pub fn new_brokerage_note(conn: &rusqlite::Connection, draft: &BrokerageNoteDraft) -> (r: Result<
    BrokerageNote,
    NoteError,
>)
    ensures
        draft.count() == 0 ==> r == Err::<BrokerageNote, NoteError>(NoteError::EmptyOrderSet),
        draft.count() > 0 && has_zero_divisor(draft.orders@) ==> r == Err::<
            BrokerageNote,
            NoteError,
        >(NoteError::DivisionByZero),
        draft.count() > 0 && !has_zero_divisor(draft.orders@) && !draft.fits() ==> r == Err::<
            BrokerageNote,
            NoteError,
        >(NoteError::AmountOutOfRange),
        r matches Ok(note) ==> draft.calculable() && draft.stored_as(note),
        draft.calculable() ==> (r matches Err(e) ==> is_store_failure(e) || e is TransactionError),
{
    let note = draft.calc()?;
    let tx = begin(conn)?;
    let id = insert_new_brokerage(conn, &note.brokerage)?;
    let orders = insert_new_brokerage_orders(conn, id, &note.orders)?;
    commit(tx)?;
    Ok(BrokerageNote { brokerage: note.brokerage.with_id(id), orders })
}

/// Recalculates the note with the given id from `draft` and replaces its row
/// and all its orders in one transaction, keeping the note's id. An unknown
/// id is `NotFound`, and nothing is changed.
pub fn update_brokerage_note(
    conn: &rusqlite::Connection,
    id: i64,
    draft: &BrokerageNoteDraft,
) -> (r: Result<BrokerageNote, NoteError>)
    ensures
        draft.count() == 0 ==> r == Err::<BrokerageNote, NoteError>(NoteError::EmptyOrderSet),
        draft.count() > 0 && has_zero_divisor(draft.orders@) ==> r == Err::<
            BrokerageNote,
            NoteError,
        >(NoteError::DivisionByZero),
        draft.count() > 0 && !has_zero_divisor(draft.orders@) && !draft.fits() ==> r == Err::<
            BrokerageNote,
            NoteError,
        >(NoteError::AmountOutOfRange),
        r matches Ok(note) ==> draft.calculable() && draft.stored_as(note) && note.brokerage.id
            == id,
        draft.calculable() ==> (r matches Err(e) ==> is_store_failure(e) || e is TransactionError
            || e is NotFound),
{
    let note = draft.calc()?;
    let tx = begin(conn)?;
    let changed = execute(conn, UPDATE_NOTE, &update_params(id, &note.brokerage))?;
    changed_outcome(changed)?;
    delete_brokerage_orders(conn, id)?;
    let orders = insert_new_brokerage_orders(conn, id, &note.orders)?;
    commit(tx)?;
    Ok(BrokerageNote { brokerage: note.brokerage.with_id(id), orders })
}

/// Removes the note with the given id and all its orders in one transaction.
pub fn delete_brokerage_note(conn: &rusqlite::Connection, brokerage_note_id: i64) -> (r: Result<
    (),
    NoteError,
>)
    ensures
        r matches Err(e) ==> is_store_failure(e) || e is TransactionError,
{
    let tx = begin(conn)?;
    delete_brokerage_orders(conn, brokerage_note_id)?;
    execute(conn, DELETE_NOTE, &id_params(brokerage_note_id))?;
    commit(tx)
}

} // verus!
