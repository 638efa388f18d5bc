use loan_schedule::currency::CurrencyCode;

#[test]
fn parse_accepts_uppercase_codes() {
    assert!(matches!(CurrencyCode::parse("GBP"), Ok(CurrencyCode::GBP)));
    assert!(matches!(CurrencyCode::parse("EUR"), Ok(CurrencyCode::EUR)));
    assert!(matches!(CurrencyCode::parse("USD"), Ok(CurrencyCode::USD)));
}

#[test]
fn parse_is_case_insensitive() {
    assert!(matches!(CurrencyCode::parse("usd"), Ok(CurrencyCode::USD)));
    assert!(matches!(CurrencyCode::parse("gBp"), Ok(CurrencyCode::GBP)));
    assert!(matches!(CurrencyCode::parse("eur"), Ok(CurrencyCode::EUR)));
}

#[test]
fn parse_rejects_unknown_currency_text() {
    let err = CurrencyCode::parse("XYZ12").unwrap_err();
    assert_eq!(err.currency_code(), "XYZ12");
    let err = CurrencyCode::parse("usd!").unwrap_err();
    assert_eq!(err.currency_code(), "usd!");
    let err = CurrencyCode::parse("AUD").unwrap_err();
    assert_eq!(err.currency_code(), "AUD");
    let err = CurrencyCode::parse("").unwrap_err();
    assert_eq!(err.currency_code(), "");
}

#[test]
fn symbol_of_each_code() {
    assert_eq!(CurrencyCode::GBP.symbol(), "\u{a3}");
    assert_eq!(CurrencyCode::EUR.symbol(), "\u{20ac}");
    assert_eq!(CurrencyCode::USD.symbol(), "$");
}

#[test]
fn code_text_is_canonical_uppercase() {
    assert_eq!(CurrencyCode::GBP.code_text(), "GBP");
    assert_eq!(CurrencyCode::EUR.code_text(), "EUR");
    assert_eq!(CurrencyCode::USD.code_text(), "USD");
}
