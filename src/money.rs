use vstd::prelude::*;

use crate::text::{hundredths, hundredths_text, signed_decimal, signed_decimal_text};

verus! {

/// The mathematical value of an [`Amount`]: a number of minor units and a
/// currency code.
pub ghost struct Money {
    pub value: int,
    pub currency: Seq<char>,
}

/// The amount that adding `b` to `a` yields when both share a currency.
pub open spec fn sum(a: Money, b: Money) -> Money {
    Money { value: a.value + b.value, currency: a.currency }
}

/// The amount that taking `b` from `a` yields when both share a currency.
pub open spec fn difference(a: Money, b: Money) -> Money {
    Money { value: a.value - b.value, currency: a.currency }
}

/// How an amount is shown to a person: yen with a `¥` sign, US dollars with a
/// `$` sign and two decimals of the major unit, any other currency as the
/// number of minor units followed by the currency code.
pub open spec fn display_of(a: Money) -> Seq<char> {
    if a.currency == "JPY"@ {
        seq!['\u{a5}'] + signed_decimal(a.value)
    } else if a.currency == "USD"@ {
        seq!['$'] + hundredths(a.value)
    } else {
        signed_decimal(a.value) + seq![' '] + a.currency
    }
}

/// An amount of money in minor units (yen, cents) of one currency.
#[derive(Debug, Clone, PartialEq, Eq)]
pub struct Amount {
    pub value: i64,
    pub currency: String,
}

impl View for Amount {
    type V = Money;

    open spec fn view(&self) -> Money {
        Money { value: self.value as int, currency: self.currency@ }
    }
}

/// Arithmetic between two amounts of different currencies was attempted.
#[derive(Debug, Clone, PartialEq, Eq)]
pub struct CurrencyMismatch {
    /// The currency of the left operand (or of the budget's cap).
    pub left: String,
    /// The currency of the right operand (or of the spent amount).
    pub right: String,
}

impl CurrencyMismatch {
    /// `Currency mismatch: <left> != <right>`.
    pub fn message(&self) -> (r: String)
        ensures
            r@ == "Currency mismatch: "@ + self.left@ + " != "@ + self.right@,
    {
        let mut r = String::from_str("Currency mismatch: ");
        r.append(self.left.as_str());
        r.append(" != ");
        r.append(self.right.as_str());
        r
    }
}

pub(crate) fn mismatch(left: &String, right: &String) -> (e: CurrencyMismatch)
    ensures
        e.left@ == left@,
        e.right@ == right@,
{
    CurrencyMismatch { left: left.clone(), right: right.clone() }
}

impl Amount {
    pub fn new(value: i64, currency: String) -> (r: Amount)
        ensures
            r.value == value,
            r.currency == currency,
    {
        Amount { value, currency }
    }

    /// An amount in Japanese yen.
    pub fn jpy(value: i64) -> (r: Amount)
        ensures
            r.value == value,
            r.currency@ == "JPY"@,
    {
        Amount::new(value, String::from_str("JPY"))
    }

    /// The sum of two amounts of one currency.
    pub fn add(&self, other: &Amount) -> (r: Result<Amount, CurrencyMismatch>)
        requires
            self.currency@ == other.currency@ ==> i64::MIN <= self.value + other.value
                <= i64::MAX,
        ensures
            r is Ok <==> self.currency@ == other.currency@,
            r matches Ok(s) ==> s@ == sum(self@, other@),
            r matches Err(e) ==> e.left@ == self.currency@ && e.right@ == other.currency@,
    {
        if self.currency != other.currency {
            return Err(mismatch(&self.currency, &other.currency));
        }
        Ok(Amount::new(self.value + other.value, self.currency.clone()))
    }

    /// The difference of two amounts of one currency.
    pub fn subtract(&self, other: &Amount) -> (r: Result<Amount, CurrencyMismatch>)
        requires
            self.currency@ == other.currency@ ==> i64::MIN <= self.value - other.value
                <= i64::MAX,
        ensures
            r is Ok <==> self.currency@ == other.currency@,
            r matches Ok(s) ==> s@ == difference(self@, other@),
            r matches Err(e) ==> e.left@ == self.currency@ && e.right@ == other.currency@,
    {
        if self.currency != other.currency {
            return Err(mismatch(&self.currency, &other.currency));
        }
        Ok(Amount::new(self.value - other.value, self.currency.clone()))
    }

    pub fn is_positive(&self) -> (r: bool)
        ensures
            r == (self.value > 0),
    {
        self.value > 0
    }

    pub fn is_negative(&self) -> (r: bool)
        ensures
            r == (self.value < 0),
    {
        self.value < 0
    }

    pub fn is_zero(&self) -> (r: bool)
        ensures
            r == (self.value == 0),
    {
        self.value == 0
    }

    /// The amount as shown to a person (see [`display_of`]).
    pub fn to_display_string(&self) -> (r: String)
        ensures
            r@ == display_of(self@),
    {
        if self.currency == String::from_str("JPY") {
            let mut r = String::from_str("\u{a5}");
            r.append(signed_decimal_text(self.value).as_str());
            proof {
                reveal_strlit("\u{a5}");
            }
            assert(r@ =~= display_of(self@));
            r
        } else if self.currency == String::from_str("USD") {
            let mut r = String::from_str("$");
            r.append(hundredths_text(self.value).as_str());
            proof {
                reveal_strlit("$");
            }
            assert(r@ =~= display_of(self@));
            r
        } else {
            let mut r = signed_decimal_text(self.value);
            r.append(" ");
            r.append(self.currency.as_str());
            proof {
                reveal_strlit(" ");
            }
            assert(r@ =~= display_of(self@));
            r
        }
    }
}

/// Adding an amount and then taking it away again gives back the amount one
/// started from; the intermediate sum keeps the shared currency, so the
/// subtraction is defined.
pub proof fn lemma_add_then_subtract(a: Money, b: Money)
    requires
        a.currency == b.currency,
    ensures
        sum(a, b).currency == b.currency,
        difference(sum(a, b), b) == a,
{
}

} // verus!
