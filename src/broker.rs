use vstd::prelude::*;

use crate::error::NoteError;
use crate::sql::{
    binds_int, binds_text, execute, holds_int, holds_text, insert, int_column, is_store_failure,
    query, text_column, Param, SqlValue,
};

verus! {

/// A brokerage firm, identified by its stored id; its name is unique.
#[derive(Debug, Clone, PartialEq, Eq)]
pub struct Broker {
    pub id: i64,
    pub name: String,
}

pub const SELECT_BROKERS: &'static str = "SELECT id, nome FROM corretora ORDER BY id ASC";

pub const INSERT_BROKER: &'static str = "INSERT INTO corretora (nome) VALUES (?1)";

pub const UPDATE_BROKER: &'static str = "UPDATE corretora SET nome = ?1 WHERE id = ?2";

pub const BROKER_COLUMNS: usize = 2;

/// `row` is `b` as the broker listing returns it: id, then name.
pub open spec fn broker_row(row: Seq<SqlValue>, b: Broker) -> bool {
    row.len() == BROKER_COLUMNS && holds_int(row[0], b.id as int) && holds_text(row[1], b.name@)
}

/// The broker in a row of the broker listing.
pub fn broker_from_row(row: &Vec<SqlValue>) -> (r: Result<Broker, NoteError>)
    requires
        row@.len() == BROKER_COLUMNS,
    ensures
        r matches Ok(b) ==> broker_row(row@, b),
        r is Err <==> !(row@[0] is Integer && row@[1] is Text),
        r matches Err(e) ==> e is MalformedRow,
{
    let id = int_column(row, 0)?;
    let name = text_column(row, 1)?;
    Ok(Broker { id, name })
}

/// The brokers in the rows of the broker listing, in the same order.
pub fn brokers_from_rows(rows: &Vec<Vec<SqlValue>>) -> (r: Result<Vec<Broker>, NoteError>)
    requires
        forall|i: int| 0 <= i < rows@.len() ==> (#[trigger] rows@[i])@.len() == BROKER_COLUMNS,
    ensures
        r matches Ok(bs) ==> bs@.len() == rows@.len() && forall|i: int|
            0 <= i < rows@.len() ==> broker_row(#[trigger] rows@[i]@, bs@[i]),
        r is Err <==> exists|i: int|
            0 <= i < rows@.len() && !((#[trigger] rows@[i])@[0] is Integer && rows@[i]@[1] is Text),
        r matches Err(e) ==> e is MalformedRow,
{
    let mut out: Vec<Broker> = Vec::new();
    let mut i: usize = 0;
    while i < rows.len()
        invariant
            i <= rows@.len(),
            forall|j: int| 0 <= j < rows@.len() ==> (#[trigger] rows@[j])@.len() == BROKER_COLUMNS,
            out@.len() == i,
            forall|j: int| 0 <= j < i ==> broker_row(#[trigger] rows@[j]@, out@[j]),
        decreases rows@.len() - i,
    {
        let b = broker_from_row(&rows[i])?;
        out.push(b);
        i = i + 1;
    }
    Ok(out)
}

/// All brokers, by id ascending.
pub fn get_broker_list(conn: &rusqlite::Connection) -> (r: Result<Vec<Broker>, NoteError>)
    ensures
        r matches Err(e) ==> is_store_failure(e) || e is MalformedRow,
{
    let rows = query(conn, SELECT_BROKERS, &Vec::new(), BROKER_COLUMNS)?;
    brokers_from_rows(&rows)
}

/// The parameters of the broker insert: the name.
pub fn new_broker_params(name: &String) -> (r: Vec<Param>)
    ensures
        r@.len() == 1,
        binds_text(r@[0], name@),
{
    vec![Param::Text(name.clone())]
}

/// Stores a broker under a new id. A name that is already stored fails with
/// `ConstraintViolation`, by the store's uniqueness constraint.
pub fn new_broker(conn: &rusqlite::Connection, broker_name: String) -> (r: Result<Broker, NoteError>)
    ensures
        r matches Ok(b) ==> b.name == broker_name,
        r matches Err(e) ==> is_store_failure(e),
{
    let id = insert(conn, INSERT_BROKER, &new_broker_params(&broker_name))?;
    Ok(Broker { id, name: broker_name })
}

/// The parameters of the broker update: the new name, then the id.
pub fn update_broker_params(broker: &Broker) -> (r: Vec<Param>)
    ensures
        r@.len() == 2,
        binds_text(r@[0], broker.name@),
        binds_int(r@[1], broker.id as int),
{
    vec![Param::Text(broker.name.clone()), Param::Integer(broker.id)]
}

/// What an update that changed `changed` rows reports: no row means no such id.
pub fn changed_outcome(changed: usize) -> (r: Result<(), NoteError>)
    ensures
        changed == 0 ==> r == Err::<(), NoteError>(NoteError::NotFound),
        changed > 0 ==> r == Ok::<(), NoteError>(()),
{
    if changed == 0 {
        Err(NoteError::NotFound)
    } else {
        Ok(())
    }
}

/// Renames the broker with the given id; an unknown id fails with `NotFound`.
pub fn update_broker(conn: &rusqlite::Connection, broker: &Broker) -> (r: Result<(), NoteError>)
    ensures
        r matches Err(e) ==> is_store_failure(e) || e is NotFound,
{
    let changed = execute(conn, UPDATE_BROKER, &update_broker_params(broker))?;
    changed_outcome(changed)
}

} // verus!
