use brokerage_notes::note_db::select_brokerage_orders_by_brokerage_id;
use brokerage_notes::{
    create_database, delete_brokerage_note, get_broker_list, get_brokerage_note,
    get_brokerage_note_page, new_broker, new_brokerage_note, update_broker, update_brokerage_note,
    Broker, BrokerageDraft, BrokerageNoteDraft, BrokerageOrderDraft, NoteError, OrderType,
    PageRequest, SortDirection, TradingDate, MONEY_SCALE,
};
use rusqlite::Connection;

const UNIT: u64 = MONEY_SCALE;

fn open() -> Connection {
    let conn = Connection::open_in_memory().unwrap();
    create_database(&conn).unwrap();
    conn
}

fn sample_draft(broker: &Broker, day: u32) -> BrokerageNoteDraft {
    BrokerageNoteDraft {
        brokerage: BrokerageDraft {
            broker: broker.clone(),
            trading_date: TradingDate::new(2022, 5, day).unwrap(),
            total_settlement_fee: 3 * UNIT,
            total_emolument_fee: UNIT,
            total_broker_fee: 30 * UNIT,
            total_iss_tax: 6 * UNIT,
        },
        orders: vec![
            BrokerageOrderDraft {
                order_type: OrderType::Sell,
                symbol: "PETR4".to_string(),
                amount: 100,
                order_value: 1000 * UNIT,
            },
            BrokerageOrderDraft {
                order_type: OrderType::Buy,
                symbol: "VALE3".to_string(),
                amount: 40,
                order_value: 2000 * UNIT,
            },
        ],
    }
}

fn request(page: u64, size: u64, direction: SortDirection) -> PageRequest {
    PageRequest { page, size, sort_by: "tradingDate".to_string(), direction }
}

#[test]
fn duplicate_broker_name_is_a_constraint_violation() {
    let conn = open();
    let xp = new_broker(&conn, "XP".to_string()).unwrap();
    assert_eq!(xp.name, "XP");
    match new_broker(&conn, "XP".to_string()) {
        Err(NoteError::ConstraintViolation(_)) => {}
        other => panic!("expected a constraint violation, got {:?}", other),
    }
}

#[test]
fn brokers_are_listed_by_id() {
    let conn = open();
    let a = new_broker(&conn, "XP".to_string()).unwrap();
    let b = new_broker(&conn, "Clear".to_string()).unwrap();
    let c = new_broker(&conn, "Rico".to_string()).unwrap();
    assert!(a.id < b.id && b.id < c.id);
    assert_eq!(get_broker_list(&conn).unwrap(), vec![a, b, c]);
}

#[test]
fn broker_rename_and_unknown_id() {
    let conn = open();
    let mut a = new_broker(&conn, "XP".to_string()).unwrap();
    a.name = "XP Investimentos".to_string();
    update_broker(&conn, &a).unwrap();
    assert_eq!(get_broker_list(&conn).unwrap(), vec![a.clone()]);
    let ghost = Broker { id: a.id + 100, name: "Nobody".to_string() };
    assert_eq!(update_broker(&conn, &ghost), Err(NoteError::NotFound));
}

#[test]
fn stored_note_reads_back_as_calculated() {
    let conn = open();
    let xp = new_broker(&conn, "XP".to_string()).unwrap();
    let draft = sample_draft(&xp, 10);
    let calculated = draft.calc().unwrap();
    let stored = new_brokerage_note(&conn, &draft).unwrap();
    assert_eq!(stored.brokerage, calculated.brokerage.with_id(stored.brokerage.id));
    assert_eq!(stored.orders.len(), 2);
    for (s, c) in stored.orders.iter().zip(calculated.orders.iter()) {
        assert_eq!(*s, c.with_id(s.id));
    }
    let read = get_brokerage_note(&conn, stored.brokerage.id).unwrap();
    assert_eq!(read, stored);
}

#[test]
fn note_without_orders_is_not_stored() {
    let conn = open();
    let xp = new_broker(&conn, "XP".to_string()).unwrap();
    let mut draft = sample_draft(&xp, 10);
    draft.orders.clear();
    assert_eq!(new_brokerage_note(&conn, &draft), Err(NoteError::EmptyOrderSet));
    let page = get_brokerage_note_page(&conn, &request(0, 10, SortDirection::Desc), None).unwrap();
    assert_eq!(page.total_elements, 0);
}

#[test]
fn deleted_note_is_gone_with_its_orders() {
    let conn = open();
    let xp = new_broker(&conn, "XP".to_string()).unwrap();
    let kept = new_brokerage_note(&conn, &sample_draft(&xp, 9)).unwrap();
    let stored = new_brokerage_note(&conn, &sample_draft(&xp, 10)).unwrap();
    let id = stored.brokerage.id;
    delete_brokerage_note(&conn, id).unwrap();
    assert_eq!(get_brokerage_note(&conn, id), Err(NoteError::NotFound));
    assert_eq!(select_brokerage_orders_by_brokerage_id(&conn, id).unwrap(), vec![]);
    assert_eq!(get_brokerage_note(&conn, kept.brokerage.id).unwrap(), kept);
}

#[test]
fn unknown_note_is_not_found() {
    let conn = open();
    assert_eq!(get_brokerage_note(&conn, 42), Err(NoteError::NotFound));
}

#[test]
fn twenty_five_notes_in_pages_of_ten() {
    let conn = open();
    let xp = new_broker(&conn, "XP".to_string()).unwrap();
    for day in 1..=25 {
        new_brokerage_note(&conn, &sample_draft(&xp, day)).unwrap();
    }
    let first = get_brokerage_note_page(&conn, &request(0, 10, SortDirection::Desc), None).unwrap();
    assert_eq!(first.content.len(), 10);
    assert_eq!(first.total_pages, 3);
    assert_eq!(first.total_elements, 25);
    assert_eq!(first.content[0].trading_date, TradingDate::new(2022, 5, 25).unwrap());
    let last = get_brokerage_note_page(&conn, &request(2, 10, SortDirection::Desc), None).unwrap();
    assert_eq!(last.content.len(), 5);
    assert_eq!(last.total_pages, 3);
    assert_eq!(last.content[4].trading_date, TradingDate::new(2022, 5, 1).unwrap());
}

#[test]
fn page_order_and_broker_filter() {
    let conn = open();
    let xp = new_broker(&conn, "XP".to_string()).unwrap();
    let clear = new_broker(&conn, "Clear".to_string()).unwrap();
    let a = new_brokerage_note(&conn, &sample_draft(&xp, 3)).unwrap();
    let b = new_brokerage_note(&conn, &sample_draft(&clear, 1)).unwrap();
    let c = new_brokerage_note(&conn, &sample_draft(&xp, 3)).unwrap();
    let d = new_brokerage_note(&conn, &sample_draft(&xp, 2)).unwrap();

    let asc = get_brokerage_note_page(&conn, &request(0, 10, SortDirection::Asc), None).unwrap();
    let ids: Vec<i64> = asc.content.iter().map(|n| n.id).collect();
    assert_eq!(ids, vec![b.brokerage.id, d.brokerage.id, c.brokerage.id, a.brokerage.id]);

    let only_xp =
        get_brokerage_note_page(&conn, &request(0, 10, SortDirection::Desc), Some(xp.id)).unwrap();
    let ids: Vec<i64> = only_xp.content.iter().map(|n| n.id).collect();
    assert_eq!(ids, vec![c.brokerage.id, a.brokerage.id, d.brokerage.id]);
    assert_eq!(only_xp.total_elements, 3);
    assert_eq!(only_xp.total_pages, 1);
    assert_eq!(only_xp.content[0].broker, xp);
}

#[test]
fn page_of_size_zero_is_refused() {
    let conn = open();
    assert_eq!(
        get_brokerage_note_page(&conn, &request(0, 0, SortDirection::Asc), None),
        Err(NoteError::InvalidPageRequest)
    );
}

#[test]
fn updated_note_keeps_its_id() {
    let conn = open();
    let xp = new_broker(&conn, "XP".to_string()).unwrap();
    let stored = new_brokerage_note(&conn, &sample_draft(&xp, 10)).unwrap();
    let id = stored.brokerage.id;
    let mut draft = sample_draft(&xp, 11);
    draft.orders.truncate(1);
    let updated = update_brokerage_note(&conn, id, &draft).unwrap();
    assert_eq!(updated.brokerage.id, id);
    assert_eq!(updated.orders.len(), 1);
    assert_eq!(updated.brokerage.total_transacted, 1000 * UNIT);
    assert_eq!(get_brokerage_note(&conn, id).unwrap(), updated);
    assert_eq!(
        update_brokerage_note(&conn, id + 1000, &draft),
        Err(NoteError::NotFound)
    );
    assert_eq!(get_brokerage_note(&conn, id).unwrap(), updated);
}

#[test]
fn nested_transaction_is_a_transaction_error() {
    let conn = open();
    let xp = new_broker(&conn, "XP".to_string()).unwrap();
    conn.execute_batch("BEGIN").unwrap();
    match new_brokerage_note(&conn, &sample_draft(&xp, 10)) {
        Err(NoteError::TransactionError(_)) => {}
        other => panic!("expected a transaction error, got {:?}", other),
    }
    conn.execute_batch("ROLLBACK").unwrap();
}

#[test]
fn missing_tables_are_a_query_error() {
    let conn = Connection::open_in_memory().unwrap();
    match get_broker_list(&conn) {
        Err(NoteError::QueryError(_)) => {}
        other => panic!("expected a query error, got {:?}", other),
    }
}

#[test]
fn foreign_rows_are_malformed() {
    let conn = open();
    let xp = new_broker(&conn, "XP".to_string()).unwrap();
    let stored = new_brokerage_note(&conn, &sample_draft(&xp, 10)).unwrap();
    conn.execute(
        "UPDATE nota_corretagem SET data_pregao = '2022-05-10 10:00:00' WHERE id = ?1",
        [stored.brokerage.id],
    )
    .unwrap();
    assert_eq!(get_brokerage_note(&conn, stored.brokerage.id), Err(NoteError::MalformedRow));
    conn.execute(
        "UPDATE nota_corretagem SET data_pregao = '2022-05-10', total_custo = -1 WHERE id = ?1",
        [stored.brokerage.id],
    )
    .unwrap();
    assert_eq!(get_brokerage_note(&conn, stored.brokerage.id), Err(NoteError::MalformedRow));
}

#[test]
fn failed_insert_leaves_nothing_behind() {
    let conn = open();
    let xp = new_broker(&conn, "XP".to_string()).unwrap();
    conn.execute_batch(
        "CREATE TRIGGER refuse_order BEFORE INSERT ON nota_corretagem_ordem \
         WHEN NEW.papel = 'VALE3' BEGIN SELECT RAISE(ABORT, 'refused'); END",
    )
    .unwrap();
    match new_brokerage_note(&conn, &sample_draft(&xp, 10)) {
        Err(NoteError::ConstraintViolation(_)) | Err(NoteError::QueryError(_)) => {}
        other => panic!("expected the insert to fail, got {:?}", other),
    }
    let page = get_brokerage_note_page(&conn, &request(0, 10, SortDirection::Desc), None).unwrap();
    assert_eq!(page.total_elements, 0);
    assert_eq!(select_brokerage_orders_by_brokerage_id(&conn, 1).unwrap(), vec![]);
}

#[test]
fn renaming_to_a_taken_name_is_a_constraint_violation() {
    let conn = open();
    new_broker(&conn, "XP".to_string()).unwrap();
    let mut clear = new_broker(&conn, "Clear".to_string()).unwrap();
    clear.name = "XP".to_string();
    match update_broker(&conn, &clear) {
        Err(NoteError::ConstraintViolation(_)) => {}
        other => panic!("expected a constraint violation, got {:?}", other),
    }
}
