//! The closed set of supported currencies, with case-insensitive parsing and
//! the display symbol of each code.

use vstd::prelude::*;

verus! {

/// A supported currency. Only codes in this set are constructible, so a value
/// of this type is always a recognized currency.
#[derive(Clone, Copy, Debug, PartialEq, Eq, Structural)]
pub enum CurrencyCode {
    GBP,
    EUR,
    USD,
}

/// The Unicode code point of `c` after ASCII upper-casing: a lower-case ASCII
/// letter is shifted to its upper-case form, any other character is unchanged.
pub open spec fn upper_code(c: char) -> int {
    if 'a' as int <= c as int <= 'z' as int {
        c as int - 32
    } else {
        c as int
    }
}

/// Whether `s`, upper-cased, is the three-letter code `a b c`.
pub open spec fn matches_code(s: Seq<char>, a: char, b: char, c: char) -> bool {
    &&& s.len() == 3
    &&& upper_code(s[0]) == a as int
    &&& upper_code(s[1]) == b as int
    &&& upper_code(s[2]) == c as int
}

/// The currency that `s` names, ignoring ASCII case, or `None` when `s` is
/// not a recognized code.
pub open spec fn spec_parse_currency(s: Seq<char>) -> Option<CurrencyCode> {
    if matches_code(s, 'G', 'B', 'P') {
        Some(CurrencyCode::GBP)
    } else if matches_code(s, 'E', 'U', 'R') {
        Some(CurrencyCode::EUR)
    } else if matches_code(s, 'U', 'S', 'D') {
        Some(CurrencyCode::USD)
    } else {
        None
    }
}

/// The display symbol of `c`, used in front of a money amount.
pub open spec fn spec_symbol(c: CurrencyCode) -> Seq<char> {
    match c {
        CurrencyCode::GBP => "£"@,
        CurrencyCode::EUR => "€"@,
        CurrencyCode::USD => "$"@,
    }
}

/// The canonical upper-case three-letter text of `c`.
pub open spec fn spec_code_text(c: CurrencyCode) -> Seq<char> {
    match c {
        CurrencyCode::GBP => "GBP"@,
        CurrencyCode::EUR => "EUR"@,
        CurrencyCode::USD => "USD"@,
    }
}

/// Rejected input text that does not name a recognized currency.
#[derive(Debug)]
pub struct UnknownCurrencyError {
    pub currency_code: String,
}

impl UnknownCurrencyError {
    pub fn new(currency_code: String) -> (r: Self)
        ensures
            r.currency_code@ == currency_code@,
    {
        Self { currency_code }
    }

    /// The offending text, exactly as it was given.
    pub fn currency_code(&self) -> (r: &str)
        ensures
            r@ == self.currency_code@,
    {
        self.currency_code.as_str()
    }

    /// The offending text, as a view, for contracts about this error.
    pub open spec fn spec_currency_code(&self) -> Seq<char> {
        self.currency_code@
    }
}

impl CurrencyCode {
    /// Parses free text into a currency code, ignoring ASCII case; text that
    /// names no recognized code is rejected, carried inside the error.
    pub fn parse(text: &str) -> (r: Result<CurrencyCode, UnknownCurrencyError>)
        ensures
            match r {
                Ok(c) => spec_parse_currency(text@) == Some(c),
                Err(e) => spec_parse_currency(text@) is None && e.spec_currency_code() == text@,
            },
    {
        if text.unicode_len() == 3 {
            let u0 = upper_code_exec(text.get_char(0));
            let u1 = upper_code_exec(text.get_char(1));
            let u2 = upper_code_exec(text.get_char(2));
            if u0 == 'G' as u32 && u1 == 'B' as u32 && u2 == 'P' as u32 {
                return Ok(CurrencyCode::GBP);
            }
            if u0 == 'E' as u32 && u1 == 'U' as u32 && u2 == 'R' as u32 {
                return Ok(CurrencyCode::EUR);
            }
            if u0 == 'U' as u32 && u1 == 'S' as u32 && u2 == 'D' as u32 {
                return Ok(CurrencyCode::USD);
            }
        }
        Err(UnknownCurrencyError::new(text.to_owned()))
    }

    /// The display symbol put in front of amounts in this currency.
    pub fn symbol(&self) -> (r: &'static str)
        ensures
            r@ == spec_symbol(*self),
    {
        match self {
            CurrencyCode::GBP => "£",
            CurrencyCode::EUR => "€",
            CurrencyCode::USD => "$",
        }
    }

    /// The canonical upper-case three-letter code.
    pub fn code_text(&self) -> (r: &'static str)
        ensures
            r@ == spec_code_text(*self),
    {
        match self {
            CurrencyCode::GBP => "GBP",
            CurrencyCode::EUR => "EUR",
            CurrencyCode::USD => "USD",
        }
    }
}

fn upper_code_exec(c: char) -> (r: u32)
    ensures
        r == upper_code(c),
{
    let v = c as u32;
    if 'a' as u32 <= v && v <= 'z' as u32 {
        v - 32
    } else {
        v
    }
}

} // verus!
