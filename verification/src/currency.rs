use vstd::prelude::*;

verus! {

/// Fiat currencies in which the amount of a payment is given.
///
/// The number by which the API identifies a currency is `code()`; a cast
/// with `as` gives the variant's position, not that number.
#[derive(Clone, Copy, Debug, Eq, PartialEq, Structural)]
pub enum FiatCurrency {
    Eur,
    USD,
    GBP,
    CAD,
    AUD,
    JPY,
    CNY,
    CZK,
    AED,
}

/// Crypto currencies in which a payment can be made.
///
/// The number by which the API identifies a currency is `code()`; a cast
/// with `as` gives the variant's position, not that number.
#[derive(Clone, Copy, Debug, Eq, PartialEq, Structural)]
pub enum CryptoCurrency {
    BTC,
    WDC,
    LTC,
    Dash,
}

/// The number by which the API identifies a fiat currency.
pub open spec fn fiat_code(c: FiatCurrency) -> u64 {
    match c {
        FiatCurrency::Eur => 1,
        FiatCurrency::USD => 2,
        FiatCurrency::GBP => 3,
        FiatCurrency::CAD => 4,
        FiatCurrency::AUD => 5,
        FiatCurrency::JPY => 9,
        FiatCurrency::CNY => 13,
        FiatCurrency::CZK => 16,
        FiatCurrency::AED => 17,
    }
}

/// The fiat currency that the API identifies by `code`, if any.
pub open spec fn fiat_from_code(code: u64) -> Option<FiatCurrency> {
    if code == 1 {
        Some(FiatCurrency::Eur)
    } else if code == 2 {
        Some(FiatCurrency::USD)
    } else if code == 3 {
        Some(FiatCurrency::GBP)
    } else if code == 4 {
        Some(FiatCurrency::CAD)
    } else if code == 5 {
        Some(FiatCurrency::AUD)
    } else if code == 9 {
        Some(FiatCurrency::JPY)
    } else if code == 13 {
        Some(FiatCurrency::CNY)
    } else if code == 16 {
        Some(FiatCurrency::CZK)
    } else if code == 17 {
        Some(FiatCurrency::AED)
    } else {
        None
    }
}

/// The number by which the API identifies a crypto currency.
pub open spec fn crypto_code(c: CryptoCurrency) -> u64 {
    match c {
        CryptoCurrency::BTC => 6,
        CryptoCurrency::WDC => 7,
        CryptoCurrency::LTC => 8,
        CryptoCurrency::Dash => 19,
    }
}

/// The crypto currency that the API identifies by `code`, if any.
pub open spec fn crypto_from_code(code: u64) -> Option<CryptoCurrency> {
    if code == 6 {
        Some(CryptoCurrency::BTC)
    } else if code == 7 {
        Some(CryptoCurrency::WDC)
    } else if code == 8 {
        Some(CryptoCurrency::LTC)
    } else if code == 19 {
        Some(CryptoCurrency::Dash)
    } else {
        None
    }
}

impl FiatCurrency {
    /// The number by which the API identifies this currency.
    pub fn code(&self) -> (code: u64)
        ensures
            code == fiat_code(*self),
    {
        match self {
            FiatCurrency::Eur => 1,
            FiatCurrency::USD => 2,
            FiatCurrency::GBP => 3,
            FiatCurrency::CAD => 4,
            FiatCurrency::AUD => 5,
            FiatCurrency::JPY => 9,
            FiatCurrency::CNY => 13,
            FiatCurrency::CZK => 16,
            FiatCurrency::AED => 17,
        }
    }

    /// The currency that the API identifies by `code`; `None` for a number
    /// that names no currency.
    pub fn from_code(code: u64) -> (res: Option<Self>)
        ensures
            res == fiat_from_code(code),
    {
        match code {
            1 => Some(FiatCurrency::Eur),
            2 => Some(FiatCurrency::USD),
            3 => Some(FiatCurrency::GBP),
            4 => Some(FiatCurrency::CAD),
            5 => Some(FiatCurrency::AUD),
            9 => Some(FiatCurrency::JPY),
            13 => Some(FiatCurrency::CNY),
            16 => Some(FiatCurrency::CZK),
            17 => Some(FiatCurrency::AED),
            _ => None,
        }
    }
}

impl CryptoCurrency {
    /// The number by which the API identifies this currency.
    pub fn code(&self) -> (code: u64)
        ensures
            code == crypto_code(*self),
    {
        match self {
            CryptoCurrency::BTC => 6,
            CryptoCurrency::WDC => 7,
            CryptoCurrency::LTC => 8,
            CryptoCurrency::Dash => 19,
        }
    }

    /// The currency that the API identifies by `code`; `None` for a number
    /// that names no currency.
    pub fn from_code(code: u64) -> (res: Option<Self>)
        ensures
            res == crypto_from_code(code),
    {
        match code {
            6 => Some(CryptoCurrency::BTC),
            7 => Some(CryptoCurrency::WDC),
            8 => Some(CryptoCurrency::LTC),
            19 => Some(CryptoCurrency::Dash),
            _ => None,
        }
    }
}

/// The numbers the API uses for the currencies: EUR 1, USD 2, GBP 3, CAD 4,
/// AUD 5, JPY 9, CNY 13, CZK 16, AED 17; BTC 6, WDC 7, LTC 8, Dash 19.
pub proof fn lemma_currency_codes()
    ensures
        fiat_code(FiatCurrency::Eur) == 1,
        fiat_code(FiatCurrency::USD) == 2,
        fiat_code(FiatCurrency::GBP) == 3,
        fiat_code(FiatCurrency::CAD) == 4,
        fiat_code(FiatCurrency::AUD) == 5,
        fiat_code(FiatCurrency::JPY) == 9,
        fiat_code(FiatCurrency::CNY) == 13,
        fiat_code(FiatCurrency::CZK) == 16,
        fiat_code(FiatCurrency::AED) == 17,
        crypto_code(CryptoCurrency::BTC) == 6,
        crypto_code(CryptoCurrency::WDC) == 7,
        crypto_code(CryptoCurrency::LTC) == 8,
        crypto_code(CryptoCurrency::Dash) == 19,
{
}

/// A fiat currency is read back from its code, and a code that is read as a
/// currency is that currency's code: the codes name the currencies one to one.
pub proof fn lemma_fiat_code_roundtrip(c: FiatCurrency, code: u64)
    ensures
        fiat_from_code(fiat_code(c)) == Some(c),
        fiat_from_code(code) == Some(c) ==> fiat_code(c) == code,
{
}

/// A crypto currency is read back from its code, and a code that is read as
/// a currency is that currency's code: the codes name the currencies one to one.
pub proof fn lemma_crypto_code_roundtrip(c: CryptoCurrency, code: u64)
    ensures
        crypto_from_code(crypto_code(c)) == Some(c),
        crypto_from_code(code) == Some(c) ==> crypto_code(c) == code,
{
}

} // verus!
