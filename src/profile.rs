use vstd::prelude::*;

use crate::clock::{now, Timestamp};
use crate::identifiers::UserId;

verus! {

/// A user's preferences.
#[derive(Debug, Clone)]
pub struct UserProfile {
    pub user_id: UserId,
    pub display_name: Option<String>,
    pub currency: String,
    pub timezone: String,
    pub created_at: Timestamp,
    pub updated_at: Timestamp,
}

impl UserProfile {
    /// A profile without a display name, in yen and Tokyo time, created and
    /// modified at `at`.
    pub fn new_at(user_id: UserId, at: Timestamp) -> (r: UserProfile)
        ensures
            r.user_id == user_id,
            r.display_name is None,
            r.currency@ == "JPY"@,
            r.timezone@ == "Asia/Tokyo"@,
            r.created_at == at,
            r.updated_at == at,
    {
        UserProfile {
            user_id,
            display_name: None,
            currency: String::from_str("JPY"),
            timezone: String::from_str("Asia/Tokyo"),
            created_at: at,
            updated_at: at,
        }
    }

    /// [`UserProfile::new_at`] at the current time.
    pub fn new(user_id: UserId) -> (r: UserProfile)
        ensures
            r.user_id == user_id,
            r.display_name is None,
            r.currency@ == "JPY"@,
            r.timezone@ == "Asia/Tokyo"@,
            r.updated_at == r.created_at,
            r.created_at.seconds >= 0,
    {
        UserProfile::new_at(user_id, now())
    }

    /// What updating with the given values at time `at` does: each field for
    /// which a value is given takes it, the others stay, and the modification
    /// time becomes `at` even when nothing is given.
    pub open spec fn updated(
        before: UserProfile,
        after: UserProfile,
        display_name: Option<String>,
        currency: Option<String>,
        timezone: Option<String>,
        at: Timestamp,
    ) -> bool {
        &&& after.display_name == match display_name {
            Some(n) => Some(n),
            None => before.display_name,
        }
        &&& after.currency == match currency {
            Some(c) => c,
            None => before.currency,
        }
        &&& after.timezone == match timezone {
            Some(t) => t,
            None => before.timezone,
        }
        &&& after.updated_at == at
        &&& after.user_id == before.user_id
        &&& after.created_at == before.created_at
    }

    /// Sets each field for which a value is given and leaves the others; the
    /// modification time becomes `at` even when nothing is given.
    pub fn update_at(
        &mut self,
        display_name: Option<String>,
        currency: Option<String>,
        timezone: Option<String>,
        at: Timestamp,
    )
        ensures
            Self::updated(*old(self), *final(self), display_name, currency, timezone, at),
    {
        if let Some(name) = display_name {
            self.display_name = Some(name);
        }
        if let Some(cur) = currency {
            self.currency = cur;
        }
        if let Some(tz) = timezone {
            self.timezone = tz;
        }
        self.updated_at = at;
    }

    /// [`UserProfile::update_at`] at the current time.
    pub fn update(
        &mut self,
        display_name: Option<String>,
        currency: Option<String>,
        timezone: Option<String>,
    )
        ensures
            Self::updated(
                *old(self),
                *final(self),
                display_name,
                currency,
                timezone,
                final(self).updated_at,
            ),
            final(self).updated_at.seconds >= 0,
    {
        self.update_at(display_name, currency, timezone, now());
    }
}

/// Updating a profile at a time later than its last modification leaves it
/// with a strictly later modification time, whichever fields are given.
pub proof fn lemma_update_moves_time_forward(
    before: UserProfile,
    display_name: Option<String>,
    currency: Option<String>,
    timezone: Option<String>,
    at: Timestamp,
    after: UserProfile,
)
    requires
        UserProfile::updated(before, after, display_name, currency, timezone, at),
        before.updated_at.is_before(at),
    ensures
        before.updated_at.is_before(after.updated_at),
{
}

} // verus!
