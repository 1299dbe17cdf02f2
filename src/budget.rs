use vstd::prelude::*;

use crate::clock::{now, Timestamp};
use crate::identifiers::{is_hyphenated_uuid, random_uuid_text, UserId};
use crate::money::{mismatch, Amount, CurrencyMismatch};
use crate::ratio::Ratio;
use crate::transaction::TransactionCategory;

verus! {

#[derive(Debug, Clone, Copy, PartialEq, Eq, Structural)]
pub enum BudgetPeriod {
    Monthly,
    Yearly,
}

/// A spending cap for one category and period, with the share of the cap
/// at which the user wants to be warned.
#[derive(Debug, Clone)]
pub struct Budget {
    pub budget_id: String,
    pub user_id: UserId,
    pub category: TransactionCategory,
    pub amount: Amount,
    pub period: BudgetPeriod,
    pub alert_threshold: Ratio,
    pub created_at: Timestamp,
    pub updated_at: Timestamp,
}

impl Budget {
    /// The alert threshold is a proper fraction (non-zero denominator).
    pub open spec fn wf(&self) -> bool {
        self.alert_threshold.wf()
    }

    /// The share of the cap that spending `spent` minor units uses:
    /// `spent / cap`, or zero when the cap is zero.
    pub open spec fn usage(&self, spent: i64) -> Ratio {
        if self.amount.value == 0 {
            Ratio { numerator: 0, denominator: 1 }
        } else {
            Ratio { numerator: spent, denominator: self.amount.value }
        }
    }

    /// A budget with identifier `budget_id`, created and modified at `at`.
    pub fn new_at(
        user_id: UserId,
        category: TransactionCategory,
        amount: Amount,
        period: BudgetPeriod,
        alert_threshold: Ratio,
        budget_id: String,
        at: Timestamp,
    ) -> (r: Budget)
        ensures
            r.budget_id == budget_id,
            r.user_id == user_id,
            r.category == category,
            r.amount == amount,
            r.period == period,
            r.alert_threshold == alert_threshold,
            r.created_at == at,
            r.updated_at == at,
    {
        Budget {
            budget_id,
            user_id,
            category,
            amount,
            period,
            alert_threshold,
            created_at: at,
            updated_at: at,
        }
    }

    /// A budget with a fresh identifier, created and modified at the current
    /// time (see [`Budget::new_at`]).
    pub fn new(
        user_id: UserId,
        category: TransactionCategory,
        amount: Amount,
        period: BudgetPeriod,
        alert_threshold: Ratio,
    ) -> (r: Budget)
        ensures
            r.user_id == user_id,
            r.category == category,
            r.amount == amount,
            r.period == period,
            r.alert_threshold == alert_threshold,
            r.updated_at == r.created_at,
            r.created_at.seconds >= 0,
            is_hyphenated_uuid(r.budget_id@),
    {
        let id = random_uuid_text();
        Budget::new_at(user_id, category, amount, period, alert_threshold, id, now())
    }

    /// The share of the cap that `spent_amount` uses (see [`Budget::usage`]);
    /// an error when it is in another currency than the cap.
    pub fn calculate_usage_percentage(&self, spent_amount: &Amount) -> (r: Result<
        Ratio,
        CurrencyMismatch,
    >)
        ensures
            r is Ok <==> self.amount.currency@ == spent_amount.currency@,
            r matches Ok(u) ==> u == self.usage(spent_amount.value) && u.wf(),
            r matches Err(e) ==> e.left@ == self.amount.currency@ && e.right@
                == spent_amount.currency@,
    {
        if self.amount.currency != spent_amount.currency {
            return Err(mismatch(&self.amount.currency, &spent_amount.currency));
        }
        if self.amount.value == 0 {
            return Ok(Ratio::new(0, 1));
        }
        Ok(Ratio::new(spent_amount.value, self.amount.value))
    }

    /// Whether `spent_amount` uses at least the alert threshold of the cap;
    /// an error when it is in another currency than the cap.
    pub fn should_alert(&self, spent_amount: &Amount) -> (r: Result<bool, CurrencyMismatch>)
        requires
            self.wf(),
        ensures
            r is Ok <==> self.amount.currency@ == spent_amount.currency@,
            r matches Ok(b) ==> b == self.usage(spent_amount.value).spec_at_least(
                self.alert_threshold,
            ),
            r matches Err(e) ==> e.left@ == self.amount.currency@ && e.right@
                == spent_amount.currency@,
    {
        let usage = self.calculate_usage_percentage(spent_amount)?;
        Ok(usage.at_least(&self.alert_threshold))
    }
}

} // verus!
