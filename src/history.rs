//! The history lookup: turns a validated symbol and what the store returned
//! into the records to serve or a typed error with its HTTP status.

use vstd::prelude::*;
use crate::symbol::{InvalidSymbol, is_allowed, upper_of, validation};

verus! {

/// One daily observation. Prices are kept as IEEE-754 `binary64` bit patterns
/// so that they pass through unchanged; `rsi` is absent when the store holds null.
pub struct PriceRecord {
    pub date: String,
    pub close_bits: u64,
    pub rsi_bits: Option<u64>,
}

/// A failure of the store before any row was read.
pub enum StoreError {
    Unavailable,
    QueryFailed,
}

/// A row of the result set could not be decoded.
pub struct RowDecodeFailed;

/// What a fetch handed back: either a failure before rows were read, or each
/// row in the store's order, decoded or not.
pub type Fetched = Result<Vec<Result<PriceRecord, RowDecodeFailed>>, StoreError>;

/// The errors a history request can end in.
pub enum HistoryError {
    InvalidSymbol(String),
    NotFound(String),
    StoreUnavailable,
    StoreQueryFailed,
    RowDecodeFailed,
}

pub const STATUS_BAD_REQUEST: u16 = 400;
pub const STATUS_NOT_FOUND: u16 = 404;
pub const STATUS_INTERNAL_ERROR: u16 = 500;

/// The HTTP status of each error.
pub open spec fn error_status(e: HistoryError) -> u16 {
    match e {
        HistoryError::InvalidSymbol(_) => 400,
        HistoryError::NotFound(_) => 404,
        _ => 500,
    }
}

/// The one message sent for every store failure.
pub open spec fn internal_message() -> Seq<char> {
    "Internal server error"@
}

/// The client-visible message: store failures never reveal their cause.
pub open spec fn error_message(e: HistoryError) -> Seq<char> {
    match e {
        HistoryError::InvalidSymbol(s) => "Invalid symbol: "@ + s@,
        HistoryError::NotFound(s) => "No data found for symbol: "@ + s@,
        _ => internal_message(),
    }
}

impl HistoryError {
    /// The rejection of a symbol that is not on the allow-list.
    pub fn invalid_symbol(e: InvalidSymbol) -> (r: HistoryError)
        ensures
            r == HistoryError::InvalidSymbol(e.input),
    {
        HistoryError::InvalidSymbol(e.input)
    }

    /// The HTTP status this error is answered with.
    pub fn status(&self) -> (r: u16)
        ensures
            r == error_status(*self),
    {
        match self {
            HistoryError::InvalidSymbol(_) => STATUS_BAD_REQUEST,
            HistoryError::NotFound(_) => STATUS_NOT_FOUND,
            _ => STATUS_INTERNAL_ERROR,
        }
    }

    /// The message sent to the client with the status.
    pub fn message(&self) -> (r: String)
        ensures
            r@ == error_message(*self),
    {
        match self {
            HistoryError::InvalidSymbol(s) => {
                let mut m = String::from_str("Invalid symbol: ");
                m.append(s.as_str());
                m
            },
            HistoryError::NotFound(s) => {
                let mut m = String::from_str("No data found for symbol: ");
                m.append(s.as_str());
                m
            },
            _ => String::from_str("Internal server error"),
        }
    }
}

/// Every row of the result set decoded.
pub open spec fn all_rows_decoded(rows: Seq<Result<PriceRecord, RowDecodeFailed>>) -> bool {
    forall|i: int| 0 <= i < rows.len() ==> (#[trigger] rows[i]) is Ok
}

/// The records of decoded rows, in the rows' order.
pub open spec fn row_records(rows: Seq<Result<PriceRecord, RowDecodeFailed>>) -> Seq<PriceRecord> {
    rows.map_values(|r: Result<PriceRecord, RowDecodeFailed>| r->Ok_0)
}

/// The status a fetch result is answered with, once the symbol was accepted.
pub open spec fn fetch_status(fetched: Fetched) -> u16 {
    match fetched {
        Err(_) => 500,
        Ok(rows) => if !all_rows_decoded(rows@) {
            500
        } else if rows@.len() == 0 {
            404
        } else {
            200
        },
    }
}

/// The status of a whole request for `raw`, given what the store would return.
pub open spec fn request_status(raw: Seq<char>, fetched: Fetched) -> u16 {
    if validation(raw) is None {
        400
    } else {
        fetch_status(fetched)
    }
}

/// The HTTP status of a lookup's result.
pub open spec fn result_status(r: Result<Vec<PriceRecord>, HistoryError>) -> u16 {
    match r {
        Ok(_) => 200,
        Err(e) => error_status(e),
    }
}

/// Lexicographic order of character sequences (the store's order on date text).
pub open spec fn text_le(a: Seq<char>, b: Seq<char>) -> bool
    decreases a.len(),
{
    if a.len() == 0 {
        true
    } else if b.len() == 0 {
        false
    } else if a[0] != b[0] {
        (a[0] as u32) < (b[0] as u32)
    } else {
        text_le(a.drop_first(), b.drop_first())
    }
}

/// Records in non-decreasing date order.
pub open spec fn sorted_by_date(recs: Seq<PriceRecord>) -> bool {
    forall|i: int, j: int|
        0 <= i <= j < recs.len() ==> text_le(#[trigger] recs[i].date@, #[trigger] recs[j].date@)
}

/// Collects the decoded rows, aborting on the first row that failed to decode.
pub fn collect_rows(rows: Vec<Result<PriceRecord, RowDecodeFailed>>) -> (r: Result<
    Vec<PriceRecord>,
    RowDecodeFailed,
>)
    ensures
        (r is Ok) <==> all_rows_decoded(rows@),
        r is Ok ==> r->Ok_0@ == row_records(rows@),
{
    let ghost rows_seq = rows@;
    let ghost n = rows_seq.len();
    let mut out: Vec<PriceRecord> = Vec::new();
    let mut rest = rows;
    assert(rows_seq.subrange(0, 0) =~= Seq::<Result<PriceRecord, RowDecodeFailed>>::empty());
    assert(row_records(rows_seq.subrange(0, 0)) =~= out@);
    while rest.len() > 0
        invariant
            rows_seq == rows@,
            n == rows_seq.len(),
            out@.len() + rest@.len() == n,
            rest@ == rows_seq.subrange(out@.len() as int, n as int),
            forall|k: int| 0 <= k < out@.len() ==> (#[trigger] rows_seq[k]) is Ok,
            out@ == row_records(rows_seq.subrange(0, out@.len() as int)),
        decreases rest@.len(),
    {
        let ghost i = out@.len() as int;
        let item = rest.remove(0);
        assert(item == rows_seq[i]);
        assert(rest@ =~= rows_seq.subrange(i + 1, n as int));
        match item {
            Ok(rec) => {
                out.push(rec);
                assert(row_records(rows_seq.subrange(0, i + 1)) =~= row_records(
                    rows_seq.subrange(0, i),
                ).push(rows_seq[i]->Ok_0));
            },
            Err(e) => {
                assert(rows_seq[i] is Err);
                return Err(e);
            },
        }
    }
    assert(rows_seq.subrange(0, n as int) =~= rows_seq);
    Ok(out)
}

/// Answers a request for the accepted symbol `symbol` from what the store
/// returned: store failures and undecodable rows are internal errors, no rows
/// is not-found, otherwise every record in the store's order.
pub fn history_response(symbol: &str, fetched: Fetched) -> (r: Result<Vec<PriceRecord>, HistoryError>)
    ensures
        result_status(r) == fetch_status(fetched),
        fetched matches Err(StoreError::Unavailable) ==> r == Err::<Vec<PriceRecord>, HistoryError>(
            HistoryError::StoreUnavailable,
        ),
        fetched matches Err(StoreError::QueryFailed) ==> r == Err::<Vec<PriceRecord>, HistoryError>(
            HistoryError::StoreQueryFailed,
        ),
        fetched is Ok && !all_rows_decoded(fetched->Ok_0@) ==> r == Err::<
            Vec<PriceRecord>,
            HistoryError,
        >(HistoryError::RowDecodeFailed),
        r matches Err(HistoryError::NotFound(s)) ==> s@ == symbol@,
        r is Ok ==> r->Ok_0@ == row_records(fetched->Ok_0@),
{
    match fetched {
        Err(StoreError::Unavailable) => Err(HistoryError::StoreUnavailable),
        Err(StoreError::QueryFailed) => Err(HistoryError::StoreQueryFailed),
        Ok(rows) => match collect_rows(rows) {
            Err(_) => Err(HistoryError::RowDecodeFailed),
            Ok(records) => {
                if records.len() == 0 {
                    Err(HistoryError::NotFound(String::from_str(symbol)))
                } else {
                    Ok(records)
                }
            },
        },
    }
}

/// A symbol whose uppercase form is not on the allow-list is answered with
/// 400, whatever the store holds.
pub proof fn unlisted_symbol_is_bad_request(raw: Seq<char>, fetched: Fetched)
    requires
        !is_allowed(upper_of(raw)),
    ensures
        validation(raw) is None,
        request_status(raw, fetched) == 400,
        forall|input: String| #[trigger] error_status(HistoryError::InvalidSymbol(input)) == 400,
{
}

/// A listed symbol with no rows in the store is answered with 404.
pub proof fn listed_symbol_without_rows_is_not_found(
    raw: Seq<char>,
    rows: Vec<Result<PriceRecord, RowDecodeFailed>>,
)
    requires
        is_allowed(upper_of(raw)),
        rows@.len() == 0,
    ensures
        request_status(raw, Ok(rows)) == 404,
{
}

/// A listed symbol with at least one row, all decoded, is answered with 200
/// and one record per row; rows delivered in date order stay in date order.
pub proof fn listed_symbol_with_rows_is_served(
    raw: Seq<char>,
    rows: Vec<Result<PriceRecord, RowDecodeFailed>>,
)
    requires
        is_allowed(upper_of(raw)),
        rows@.len() >= 1,
        all_rows_decoded(rows@),
    ensures
        request_status(raw, Ok(rows)) == 200,
        row_records(rows@).len() == rows@.len(),
        sorted_by_date(row_records(rows@)) <==> forall|i: int, j: int|
            0 <= i <= j < rows@.len() ==> text_le(
                (#[trigger] rows@[i])->Ok_0.date@,
                (#[trigger] rows@[j])->Ok_0.date@,
            ),
{
    let recs = row_records(rows@);
    assert forall|i: int| 0 <= i < rows@.len() implies #[trigger] recs[i] == rows@[i]->Ok_0 by {}
    if sorted_by_date(recs) {
        assert forall|i: int, j: int| 0 <= i <= j < rows@.len() implies text_le(
            (#[trigger] rows@[i])->Ok_0.date@,
            (#[trigger] rows@[j])->Ok_0.date@,
        ) by {
            assert(recs[i] == rows@[i]->Ok_0 && recs[j] == rows@[j]->Ok_0);
        }
    }
}

/// Each served record is the stored row unchanged: the price bits and the
/// presence or absence of the indicator come through exactly.
pub proof fn records_are_rows_unchanged(rows: Seq<Result<PriceRecord, RowDecodeFailed>>)
    requires
        all_rows_decoded(rows),
    ensures
        forall|i: int|
            0 <= i < rows.len() ==> (#[trigger] row_records(rows)[i]) == rows[i]->Ok_0
                && row_records(rows)[i].rsi_bits == rows[i]->Ok_0.rsi_bits
                && (row_records(rows)[i].rsi_bits is None <==> rows[i]->Ok_0.rsi_bits is None),
{
}

/// A listed symbol whose store cannot be opened or queried, or has a row that
/// cannot be decoded, is answered with 500.
pub proof fn store_failure_is_server_error(raw: Seq<char>, fetched: Fetched)
    requires
        is_allowed(upper_of(raw)),
        fetched is Err || !all_rows_decoded(fetched->Ok_0@),
    ensures
        request_status(raw, fetched) == 500,
{
}

/// Liveness probe: always answers `OK`.
pub fn health() -> (r: &'static str)
    ensures
        r@ == "OK"@,
{
    "OK"
}

} // verus!
