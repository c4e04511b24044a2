use price_api::history::{
    health, history_response, HistoryError, PriceRecord, RowDecodeFailed, StoreError,
};
use price_api::symbol::SymbolAllowList;

fn record(date: &str, close: f64, rsi: Option<f64>) -> PriceRecord {
    PriceRecord {
        date: date.to_string(),
        close_bits: close.to_bits(),
        rsi_bits: rsi.map(|v| v.to_bits()),
    }
}

fn request(
    raw: &str,
    store: Vec<(&str, &str, f64, Option<f64>)>,
) -> Result<Vec<PriceRecord>, HistoryError> {
    let allow = SymbolAllowList::new();
    let canonical = match allow.validate(raw) {
        Ok(c) => c,
        Err(e) => return Err(HistoryError::invalid_symbol(e)),
    };
    let rows = store
        .into_iter()
        .filter(|(sym, _, _, _)| *sym == canonical)
        .map(|(_, date, close, rsi)| Ok(record(date, close, rsi)))
        .collect();
    history_response(&canonical, Ok(rows))
}

#[test]
fn lowercase_symbol_served_in_date_order() {
    let store = vec![
        ("BTC", "2024-01-01", 42000.0, None),
        ("ETH", "2024-01-01", 2300.0, Some(40.0)),
        ("BTC", "2024-01-02", 43000.5, Some(55.2)),
    ];
    let recs = request("btc", store).ok().expect("served");
    assert_eq!(recs.len(), 2);
    assert_eq!(recs[0].date, "2024-01-01");
    assert_eq!(f64::from_bits(recs[0].close_bits), 42000.0);
    assert_eq!(recs[0].rsi_bits, None);
    assert_eq!(recs[1].date, "2024-01-02");
    assert_eq!(f64::from_bits(recs[1].close_bits), 43000.5);
    assert_eq!(recs[1].rsi_bits.map(f64::from_bits), Some(55.2));
}

#[test]
fn unlisted_symbol_rejected_whatever_the_store() {
    let store = vec![("XYZ", "2024-01-01", 1.0, None)];
    let err = request("XYZ", store).err().expect("rejected");
    assert_eq!(err.status(), 400);
    assert_eq!(err.message(), "Invalid symbol: XYZ");
    let err = request("xyz", vec![]).err().expect("rejected");
    assert_eq!(err.status(), 400);
    assert_eq!(err.message(), "Invalid symbol: xyz");
}

#[test]
fn empty_symbol_rejected() {
    let err = request("", vec![]).err().expect("rejected");
    assert_eq!(err.status(), 400);
}

#[test]
fn listed_symbol_without_rows_not_found() {
    let store = vec![("BTC", "2024-01-01", 1.0, None)];
    let err = request("QQQ", store).err().expect("not found");
    assert_eq!(err.status(), 404);
    assert_eq!(err.message(), "No data found for symbol: QQQ");
}

#[test]
fn mixed_case_symbol_not_found_names_canonical_form() {
    let err = request("vHyL", vec![]).err().expect("not found");
    assert_eq!(err.status(), 404);
    assert_eq!(err.message(), "No data found for symbol: VHYL");
}

#[test]
fn store_unavailable_is_internal_error() {
    let err = history_response("BTC", Err(StoreError::Unavailable)).err().expect("fails");
    assert!(matches!(err, HistoryError::StoreUnavailable));
    assert_eq!(err.status(), 500);
    assert_eq!(err.message(), "Internal server error");
}

#[test]
fn query_failure_is_internal_error() {
    let err = history_response("BTC", Err(StoreError::QueryFailed)).err().expect("fails");
    assert!(matches!(err, HistoryError::StoreQueryFailed));
    assert_eq!(err.status(), 500);
    assert_eq!(err.message(), "Internal server error");
}

#[test]
fn bad_row_aborts_whole_fetch() {
    let rows = vec![
        Ok(record("2024-01-01", 1.0, None)),
        Err(RowDecodeFailed),
        Ok(record("2024-01-03", 3.0, None)),
    ];
    let err = history_response("BTC", Ok(rows)).err().expect("fails");
    assert!(matches!(err, HistoryError::RowDecodeFailed));
    assert_eq!(err.status(), 500);
    assert_eq!(err.message(), "Internal server error");
}

#[test]
fn record_count_equals_row_count() {
    let rows: Vec<Result<PriceRecord, RowDecodeFailed>> = (1..=5)
        .map(|d| Ok(record(&format!("2024-01-0{}", d), d as f64, Some(0.0))))
        .collect();
    let recs = history_response("GLD", Ok(rows)).ok().expect("served");
    assert_eq!(recs.len(), 5);
    for (i, r) in recs.iter().enumerate() {
        assert_eq!(r.date, format!("2024-01-0{}", i + 1));
        assert_eq!(r.rsi_bits, Some(0.0f64.to_bits()));
    }
}

#[test]
fn every_listed_symbol_accepted_in_any_case() {
    let allow = SymbolAllowList::new();
    for s in [
        "BTC", "ETH", "BNB", "SOL", "XRP", "LTC", "VWRA", "IWDA", "VT", "CSPX", "VTI", "EXSA",
        "VWO", "BND", "EMB", "GLD", "DBC", "VNQ", "QQQ", "ICLN", "VHYL",
    ] {
        assert!(allow.contains(s));
        assert_eq!(allow.validate(&s.to_lowercase()).ok(), Some(s.to_string()));
    }
    assert!(!allow.contains("btc"));
    assert!(!allow.contains("SPY"));
    assert!(!allow.contains(""));
}

#[test]
fn rejection_keeps_original_input() {
    let allow = SymbolAllowList::new();
    let err = allow.validate("Doge").err().expect("rejected");
    assert_eq!(err.input, "Doge");
}

#[test]
fn health_is_ok() {
    assert_eq!(health(), "OK");
}
