//! Supported currencies for money movement. Only USD is bookable; amounts
//! are integer minor units of the currency (USD cents).

use vstd::prelude::*;
use crate::errors::{unsupported_currency, DomainError};
use crate::text::{owned, to_uppercase, uppercase_of};

verus! {

/// Supported fiat currencies.
#[derive(Debug, Clone, Copy, PartialEq, Eq, Structural, PartialOrd, Ord, Hash)]
pub enum Currency {
    /// United States dollar (ISO-4217 `USD`), minor unit = cent.
    Usd,
}

/// ISO-4217 alphabetic code of a currency.
pub open spec fn currency_code(c: Currency) -> Seq<char> {
    match c {
        Currency::Usd => "USD"@,
    }
}

/// The currency whose code is the upper-case form of `s`, if any.
pub open spec fn currency_of_upper(upper: Seq<char>) -> Option<Currency> {
    if upper == "USD"@ {
        Some(Currency::Usd)
    } else {
        None
    }
}

impl Currency {
    /// Returns the ISO-4217 alphabetic code.
    pub fn code(&self) -> (r: &'static str)
        ensures
            r@ == currency_code(*self),
    {
        match self {
            Currency::Usd => "USD",
        }
    }

    /// The code as an owned string (the currency's `Display` form).
    pub fn to_string(&self) -> (r: String)
        ensures
            r@ == currency_code(*self),
    {
        owned(self.code())
    }

    /// Parses a currency code, case-insensitively: the upper-case form of
    /// `s` must be a supported code. Any other input gives
    /// `UnsupportedCurrency` carrying that upper-case form.
    pub fn parse(s: &str) -> (r: Result<Currency, DomainError>)
        ensures
            match currency_of_upper(uppercase_of(s@)) {
                Some(c) => r == Ok::<Currency, DomainError>(c),
                None => r matches Err(e) && unsupported_currency(e, uppercase_of(s@)),
            },
    {
        let upper = to_uppercase(s);
        let usd = owned("USD");
        if upper == usd {
            Ok(Currency::Usd)
        } else {
            Err(DomainError::UnsupportedCurrency(upper))
        }
    }
}

impl core::str::FromStr for Currency {
    type Err = DomainError;

    fn from_str(s: &str) -> (r: Result<Currency, DomainError>)
        ensures
            match currency_of_upper(uppercase_of(s@)) {
                Some(c) => r == Ok::<Currency, DomainError>(c),
                None => r matches Err(e) && unsupported_currency(e, uppercase_of(s@)),
            },
    {
        Currency::parse(s)
    }
}

} // verus!
