use vstd::prelude::*;

verus! {

/// Why an operation on notes, orders or brokers did not complete.
///
/// Every failure aborts the requested operation as a whole: the calculator
/// fails before producing any output, and multi-row writes run inside a
/// transaction that is rolled back.
#[derive(Debug, Clone, PartialEq, Eq)]
pub enum NoteError {
    /// The store could not be reached or opened.
    ConnectionError(String),
    /// A storage constraint refused the write (a broker name that already exists).
    ConstraintViolation(String),
    /// No note or broker has the requested id.
    NotFound,
    /// A note was given without any order.
    EmptyOrderSet,
    /// An order has a zero amount or a zero order value.
    DivisionByZero,
    /// A money figure, amount or page offset does not fit in a stored integer.
    AmountOutOfRange,
    /// A page request with a size of zero.
    InvalidPageRequest,
    /// Beginning or committing a transaction failed.
    TransactionError(String),
    /// Any other failure returned by the store.
    QueryError(String),
    /// A stored row does not have the shape this library writes.
    MalformedRow,
}

} // verus!
