use vstd::prelude::*;

use crate::error::NoteError;
use crate::sql::{execute, is_store_failure, Param};

verus! {

/// Brokers; names are unique.
pub const CREATE_BROKER_TABLE: &'static str = "CREATE TABLE IF NOT EXISTS corretora (\
    id INTEGER PRIMARY KEY, \
    nome TEXT UNIQUE NOT NULL)";

/// Notes; money columns hold hundred-millionths of the currency unit, the
/// trading date is written `YYYY-MM-DD`.
pub const CREATE_NOTE_TABLE: &'static str = "CREATE TABLE IF NOT EXISTS nota_corretagem (\
    id INTEGER PRIMARY KEY, \
    corretora_id INTEGER NOT NULL, \
    total_taxa_liquidacao INTEGER NOT NULL, \
    total_emolumentos INTEGER NOT NULL, \
    total_corretagem INTEGER NOT NULL, \
    total_iss INTEGER NOT NULL, \
    total_irrf INTEGER NOT NULL, \
    total_custo INTEGER NOT NULL, \
    total_transacionado INTEGER NOT NULL, \
    total_comprado INTEGER NOT NULL, \
    total_vendido INTEGER NOT NULL, \
    data_pregao TEXT NOT NULL, \
    FOREIGN KEY(corretora_id) REFERENCES corretora(id))";

/// Orders of a note; they are removed together with it.
pub const CREATE_ORDER_TABLE: &'static str = "CREATE TABLE IF NOT EXISTS nota_corretagem_ordem (\
    id INTEGER PRIMARY KEY, \
    nota_corretagem_id INTEGER NOT NULL, \
    tipo TEXT NOT NULL, \
    papel TEXT NOT NULL, \
    quantidade INTEGER NOT NULL, \
    valor_ordem INTEGER NOT NULL, \
    valor_unidade INTEGER NOT NULL, \
    taxa_liquidacao INTEGER NOT NULL, \
    emolumentos INTEGER NOT NULL, \
    corretagem INTEGER NOT NULL, \
    iss INTEGER NOT NULL, \
    irrf INTEGER NOT NULL, \
    total_custo INTEGER NOT NULL, \
    FOREIGN KEY(nota_corretagem_id) REFERENCES nota_corretagem(id))";

/// Creates the three tables where they do not exist yet.
pub fn create_database(conn: &rusqlite::Connection) -> (r: Result<(), NoteError>)
    ensures
        r matches Err(e) ==> is_store_failure(e),
{
    let none: Vec<Param> = Vec::new();
    execute(conn, CREATE_BROKER_TABLE, &none)?;
    execute(conn, CREATE_NOTE_TABLE, &none)?;
    execute(conn, CREATE_ORDER_TABLE, &none)?;
    Ok(())
}

} // verus!
