//! Integer minor-unit money values.
//!
//! Amounts are non-negative integer minor units (for USD, cents); transfer
//! amounts are strictly positive; arithmetic fails on overflow or currency
//! mismatch instead of wrapping.

use vstd::prelude::*;
use crate::currency::{currency_code, Currency};
use crate::decimal::{i64_parse, i64_text, int_text, parse_i64_chars};
use crate::errors::{invalid_money, invalid_money_error, unsupported_currency, DomainError};
use crate::text::{
    chars_of, find_char, owned, push_str, string_from_chars, trim_bounds, trim_seq,
};

verus! {

/// Integer minor-unit money value with an associated currency.
#[derive(Debug, Clone, Copy, PartialEq, Eq, PartialOrd, Ord, Hash)]
pub struct Money {
    amount_minor: i64,
    currency: Currency,
}

/// Outcome of adding two minor-unit amounts: the sum, or the message of the
/// `InvalidMoney` error.
pub open spec fn sum_outcome(a: int, b: int) -> Result<int, Seq<char>> {
    if a + b < i64::MIN || a + b > i64::MAX {
        Err("overflow"@)
    } else if a + b < 0 {
        Err("amount cannot be negative"@)
    } else {
        Ok(a + b)
    }
}

/// Outcome of subtracting `b` from `a` in minor units.
pub open spec fn diff_outcome(a: int, b: int) -> Result<int, Seq<char>> {
    if a - b < i64::MIN || a - b > i64::MAX {
        Err("overflow"@)
    } else if a - b < 0 {
        Err("amount cannot be negative"@)
    } else {
        Ok(a - b)
    }
}

/// Message of the error for two different currencies.
pub open spec fn mismatch_text(a: Currency, b: Currency) -> Seq<char> {
    "currency mismatch: "@ + currency_code(a) + " vs "@ + currency_code(b)
}

/// Outcome of `Money::parse_minor` on `s`: the amount, or the message of
/// the `InvalidMoney` error.
pub open spec fn minor_parse_outcome(s: Seq<char>) -> Result<i64, Seq<char>> {
    let t = trim_seq(s);
    if t.len() == 0 {
        Err("empty amount"@)
    } else if t[0] == '-' {
        Err("negative amount"@)
    } else if t.contains('.') {
        Err("fractional minor units not allowed"@)
    } else {
        match i64_parse(t) {
            Some(v) => Ok(v),
            None => Err("invalid amount: "@ + t),
        }
    }
}

/// Text of a money value: amount, a space, currency code.
pub open spec fn money_text(amount: int, c: Currency) -> Seq<char> {
    int_text(amount) + " "@ + currency_code(c)
}

impl Money {
    #[verifier::type_invariant]
    spec fn non_negative(self) -> bool {
        self.amount_minor >= 0
    }

    /// Amount in minor units.
    pub closed spec fn amount(self) -> int {
        self.amount_minor as int
    }

    /// Currency of the amount.
    pub closed spec fn cur(self) -> Currency {
        self.currency
    }

    /// Creates money from minor units; negative amounts are rejected.
    pub fn from_minor(amount_minor: i64, currency: Currency) -> (r: Result<Money, DomainError>)
        ensures
            amount_minor >= 0 ==> (r matches Ok(m) && m.amount() == amount_minor && m.cur()
                == currency),
            amount_minor < 0 ==> (r matches Err(e) && invalid_money(e, "amount cannot be negative"@)),
    {
        if amount_minor < 0 {
            return Err(invalid_money_error("amount cannot be negative"));
        }
        Ok(Money { amount_minor, currency })
    }

    /// Creates a strictly positive transfer amount in minor units.
    pub fn transfer_amount(amount_minor: i64, currency: Currency) -> (r: Result<
        Money,
        DomainError,
    >)
        ensures
            amount_minor > 0 ==> (r matches Ok(m) && m.amount() == amount_minor && m.cur()
                == currency),
            amount_minor <= 0 ==> (r matches Err(e) && invalid_money(
                e,
                "transfer amount must be positive"@,
            )),
    {
        if amount_minor <= 0 {
            return Err(invalid_money_error("transfer amount must be positive"));
        }
        Ok(Money { amount_minor, currency })
    }

    /// Parses a decimal string of integer minor units (surrounding
    /// whitespace ignored; no sign `-`, no decimal point).
    pub fn parse_minor(s: &str, currency: Currency) -> (r: Result<Money, DomainError>)
        ensures
            match minor_parse_outcome(s@) {
                Ok(v) => r matches Ok(m) && m.amount() == v && m.cur() == currency,
                Err(msg) => r matches Err(e) && invalid_money(e, msg),
            },
    {
        let cs = chars_of(s);
        let (a, b) = trim_bounds(&cs);
        let ghost t = trim_seq(s@);
        if a == b {
            return Err(invalid_money_error("empty amount"));
        }
        if cs[a] == '-' {
            return Err(invalid_money_error("negative amount"));
        }
        let mut tc: Vec<char> = Vec::new();
        let mut i = a;
        while i < b
            invariant
                a <= i <= b <= cs@.len(),
                tc@ == cs@.subrange(a as int, i as int),
            decreases b - i,
        {
            tc.push(cs[i]);
            assert(cs@.subrange(a as int, i + 1) == cs@.subrange(a as int, i as int).push(
                cs@[i as int],
            ));
            i += 1;
        }
        assert(tc@ == t);
        if let Some(_) = find_char(&tc, '.') {
            return Err(invalid_money_error("fractional minor units not allowed"));
        }
        match parse_i64_chars(&tc) {
            Some(v) => {
                assert(v >= 0) by {
                    crate::decimal::lemma_unsigned_parse_non_negative(t);
                }
                Ok(Money { amount_minor: v, currency })
            },
            None => {
                let mut msg = owned("invalid amount: ");
                let trimmed = string_from_chars(&cs, a, b);
                push_str(&mut msg, trimmed.as_str());
                Err(DomainError::InvalidMoney(msg))
            },
        }
    }

    /// Returns the amount in integer minor units.
    pub fn amount_minor(&self) -> (r: i64)
        ensures
            r == self.amount(),
            r >= 0,
    {
        proof {
            use_type_invariant(self);
        }
        self.amount_minor
    }

    /// Returns the associated currency.
    pub fn currency(&self) -> (r: Currency)
        ensures
            r == self.cur(),
    {
        self.currency
    }

    /// Subtracts another money value of the same currency.
    pub fn checked_sub(&self, other: &Money) -> (r: Result<Money, DomainError>)
        ensures
            self.cur() != other.cur() ==> (r matches Err(e) && unsupported_currency(
                e,
                mismatch_text(self.cur(), other.cur()),
            )),
            self.cur() == other.cur() ==> match diff_outcome(self.amount(), other.amount()) {
                Ok(v) => r matches Ok(m) && m.amount() == v && m.cur() == self.cur(),
                Err(msg) => r matches Err(e) && invalid_money(e, msg),
            },
    {
        proof {
            use_type_invariant(self);
            use_type_invariant(other);
        }
        if self.currency != other.currency {
            return Err(DomainError::UnsupportedCurrency(mismatch(self.currency, other.currency)));
        }
        match self.amount_minor.checked_sub(other.amount_minor) {
            None => Err(invalid_money_error("overflow")),
            Some(v) => Money::from_minor(v, self.currency),
        }
    }

    /// Adds another money value of the same currency.
    pub fn checked_add(&self, other: &Money) -> (r: Result<Money, DomainError>)
        ensures
            self.cur() != other.cur() ==> (r matches Err(e) && unsupported_currency(
                e,
                mismatch_text(self.cur(), other.cur()),
            )),
            self.cur() == other.cur() ==> match sum_outcome(self.amount(), other.amount()) {
                Ok(v) => r matches Ok(m) && m.amount() == v && m.cur() == self.cur(),
                Err(msg) => r matches Err(e) && invalid_money(e, msg),
            },
    {
        proof {
            use_type_invariant(self);
            use_type_invariant(other);
        }
        if self.currency != other.currency {
            return Err(DomainError::UnsupportedCurrency(mismatch(self.currency, other.currency)));
        }
        match self.amount_minor.checked_add(other.amount_minor) {
            None => Err(invalid_money_error("overflow")),
            Some(v) => Money::from_minor(v, self.currency),
        }
    }

    /// Zero money for a currency.
    pub fn zero(currency: Currency) -> (r: Money)
        ensures
            r.amount() == 0,
            r.cur() == currency,
    {
        Money { amount_minor: 0, currency }
    }

    /// The value as text: amount in minor units, a space, the currency code.
    pub fn to_string(&self) -> (r: String)
        ensures
            r@ == money_text(self.amount(), self.cur()),
    {
        let mut out = i64_text(self.amount_minor);
        push_str(&mut out, " ");
        push_str(&mut out, self.currency.code());
        assert(out@ =~= money_text(self.amount(), self.cur()));
        out
    }

    /// Parses minor units as USD (`FromStr` for money).
    pub fn parse_usd(s: &str) -> (r: Result<Money, DomainError>)
        ensures
            match minor_parse_outcome(s@) {
                Ok(v) => r matches Ok(m) && m.amount() == v && m.cur() == Currency::Usd,
                Err(msg) => r matches Err(e) && invalid_money(e, msg),
            },
    {
        Money::parse_minor(s, Currency::Usd)
    }
}

impl core::str::FromStr for Money {
    type Err = DomainError;

    fn from_str(s: &str) -> (r: Result<Money, DomainError>)
        ensures
            match minor_parse_outcome(s@) {
                Ok(v) => r matches Ok(m) && m.amount() == v && m.cur() == Currency::Usd,
                Err(msg) => r matches Err(e) && invalid_money(e, msg),
            },
    {
        Money::parse_usd(s)
    }
}

fn mismatch(a: Currency, b: Currency) -> (r: String)
    ensures
        r@ == mismatch_text(a, b),
{
    let mut out = owned("currency mismatch: ");
    push_str(&mut out, a.code());
    push_str(&mut out, " vs ");
    push_str(&mut out, b.code());
    out
}

/// Adding then subtracting the same amount gives the first amount back.
pub proof fn law_add_then_sub(a: int, b: int, s: int)
    requires
        a >= 0,
        b >= 0,
        sum_outcome(a, b) == Ok::<int, Seq<char>>(s),
    ensures
        diff_outcome(s, b) == Ok::<int, Seq<char>>(a),
{
}

/// Addition of amounts is commutative, errors included.
pub proof fn law_sum_commutes(a: int, b: int)
    ensures
        sum_outcome(a, b) == sum_outcome(b, a),
{
}

/// Any amount text that, once trimmed, holds a decimal point is rejected.
pub proof fn law_fraction_rejected(s: Seq<char>)
    requires
        trim_seq(s).contains('.'),
    ensures
        minor_parse_outcome(s) is Err,
{
}

/// The decimal text of any non-negative amount parses back to that amount.
pub proof fn law_parse_minor_reads_decimal_text(n: i64)
    requires
        n >= 0,
    ensures
        minor_parse_outcome(int_text(n as int)) == Ok::<i64, Seq<char>>(n),
{
    let t = int_text(n as int);
    crate::decimal::lemma_nat_text(n as nat);
    assert(t == crate::decimal::nat_text(n as nat));
    assert forall|j: int| 0 <= j < t.len() implies !crate::text::is_ws(#[trigger] t[j]) by {
        assert(crate::decimal::is_digit(t[j]));
    }
    crate::text::lemma_trim_without_whitespace(t);
    assert(crate::decimal::is_digit(t[0]));
    assert(!t.contains('.')) by {
        if t.contains('.') {
            let j = choose|j: int| 0 <= j < t.len() && t[j] == '.';
            assert(crate::decimal::is_digit(t[j]));
        }
    }
    crate::decimal::law_i64_text_round_trip(n);
}

/// A successful parse is never negative.
pub proof fn law_parsed_amount_non_negative(s: Seq<char>)
    ensures
        minor_parse_outcome(s) matches Ok(v) ==> v >= 0,
{
    let t = trim_seq(s);
    if t.len() > 0 && t[0] != '-' {
        crate::decimal::lemma_unsigned_parse_non_negative(t);
    }
}

} // verus!
