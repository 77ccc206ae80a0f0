//! Brokerage settlement notes: apportioning a note's fees over its orders,
//! and storing notes, orders and brokers in SQLite.
//!
//! Money is fixed-point: every money figure is a count of hundred-millionths
//! of the currency unit (see `note::MONEY_SCALE`).
pub mod broker;
pub mod calc;
pub mod date;
pub mod error;
pub mod note;
pub mod note_db;
pub mod page;
pub mod schema;
pub mod sql;

pub use broker::{get_broker_list, new_broker, update_broker, Broker};
pub use date::TradingDate;
pub use error::NoteError;
pub use note::{
    Brokerage, BrokerageDraft, BrokerageNote, BrokerageNoteDraft, BrokerageOrder,
    BrokerageOrderDraft, OrderType, MONEY_SCALE,
};
pub use note_db::{
    delete_brokerage_note, get_brokerage_note, get_brokerage_note_page, new_brokerage_note,
    update_brokerage_note,
};
pub use page::{PageRequest, PageResponse, SortDirection};
pub use schema::create_database;
