//! The fixed allow-list of ticker symbols and case-insensitive validation.

use vstd::prelude::*;

verus! {

/// What `str::to_uppercase` returns for a string; it depends on the characters alone.
pub uninterp spec fn upper_of(s: Seq<char>) -> Seq<char>;

/// Relies on `str::to_uppercase`: the Unicode uppercase mapping of the input.
#[verifier::external_body]
fn uppercase(s: &str) -> (r: String)
    ensures
        r@ == upper_of(s@),
{
    s.to_uppercase()
}

/// The canonical (uppercase) tickers that may be requested, in a fixed order.
pub open spec fn allowed_symbols() -> Seq<Seq<char>> {
    seq![
        "BTC"@, "ETH"@, "BNB"@, "SOL"@, "XRP"@, "LTC"@,
        "VWRA"@, "IWDA"@, "VT"@,
        "CSPX"@, "VTI"@, "EXSA"@, "VWO"@,
        "BND"@, "EMB"@,
        "GLD"@, "DBC"@,
        "VNQ"@,
        "QQQ"@, "ICLN"@, "VHYL"@,
    ]
}

/// A canonical symbol is accepted iff it is exactly one of the listed tickers.
pub open spec fn is_allowed(canonical: Seq<char>) -> bool {
    allowed_symbols().contains(canonical)
}

/// The outcome of validating a raw symbol: its uppercase form when that is listed.
pub open spec fn validation(raw: Seq<char>) -> Option<Seq<char>> {
    if is_allowed(upper_of(raw)) {
        Some(upper_of(raw))
    } else {
        None
    }
}

/// A requested symbol that is not on the allow-list; holds the input as given.
pub struct InvalidSymbol {
    pub input: String,
}

/// The immutable set of accepted tickers, built once and shared read-only.
pub struct SymbolAllowList {
    symbols: Vec<String>,
}

impl SymbolAllowList {
    pub closed spec fn view(&self) -> Seq<Seq<char>> {
        self.symbols@.map_values(|s: String| s@)
    }

    pub open spec fn wf(&self) -> bool {
        self.view() == allowed_symbols()
    }

    /// Builds the fixed list of accepted tickers.
    pub fn new() -> (r: SymbolAllowList)
        ensures
            r.wf(),
    {
        let mut symbols: Vec<String> = Vec::new();
        symbols.push(String::from_str("BTC"));
        symbols.push(String::from_str("ETH"));
        symbols.push(String::from_str("BNB"));
        symbols.push(String::from_str("SOL"));
        symbols.push(String::from_str("XRP"));
        symbols.push(String::from_str("LTC"));
        symbols.push(String::from_str("VWRA"));
        symbols.push(String::from_str("IWDA"));
        symbols.push(String::from_str("VT"));
        symbols.push(String::from_str("CSPX"));
        symbols.push(String::from_str("VTI"));
        symbols.push(String::from_str("EXSA"));
        symbols.push(String::from_str("VWO"));
        symbols.push(String::from_str("BND"));
        symbols.push(String::from_str("EMB"));
        symbols.push(String::from_str("GLD"));
        symbols.push(String::from_str("DBC"));
        symbols.push(String::from_str("VNQ"));
        symbols.push(String::from_str("QQQ"));
        symbols.push(String::from_str("ICLN"));
        symbols.push(String::from_str("VHYL"));
        let r = SymbolAllowList { symbols };
        assert(r.view() =~= allowed_symbols());
        r
    }

    /// Exact membership of an already-canonical symbol.
    pub fn contains(&self, canonical: &str) -> (r: bool)
        requires
            self.wf(),
        ensures
            r == is_allowed(canonical@),
    {
        let target = String::from_str(canonical);
        let mut i: usize = 0;
        while i < self.symbols.len()
            invariant
                self.wf(),
                target@ == canonical@,
                0 <= i <= self.symbols@.len(),
                forall|j: int| 0 <= j < i ==> self.view()[j] != canonical@,
            decreases self.symbols@.len() - i,
        {
            if self.symbols[i] == target {
                assert(self.view()[i as int] == canonical@);
                return true;
            }
            i = i + 1;
        }
        assert(!self.view().contains(canonical@));
        false
    }

    /// Uppercases `raw` and accepts it iff the result is listed; a rejection
    /// carries the input unchanged.
    pub fn validate(&self, raw: &str) -> (r: Result<String, InvalidSymbol>)
        requires
            self.wf(),
        ensures
            match r {
                Ok(c) => validation(raw@) == Some(c@),
                Err(e) => validation(raw@) is None && e.input@ == raw@,
            },
    {
        let upper = uppercase(raw);
        if self.contains(upper.as_str()) {
            Ok(upper)
        } else {
            Err(InvalidSymbol { input: String::from_str(raw) })
        }
    }
}

} // verus!
