use vstd::prelude::*;

use crate::clock::{now, Timestamp};
use crate::identifiers::{is_hyphenated_uuid, TransactionId, UserId};
use crate::lists::{
    contains_text, lemma_filter_keeps_distinct, lemma_push_keeps_distinct, other_than, texts,
    without_text,
};
use crate::money::Amount;

verus! {

/// Whether a transaction counts against the household budget.
#[derive(Debug, Clone, Copy, PartialEq, Eq, Structural)]
pub enum TransactionType {
    /// Spending that affects the household budget.
    Real,
    /// Money paid on someone else's behalf, to be reimbursed; outside the budget.
    Flow,
}

#[derive(Debug, Clone, Copy, PartialEq, Eq, Structural)]
pub enum TransactionCategory {
    Food,
    Transportation,
    Utilities,
    Entertainment,
    Healthcare,
    Shopping,
    Education,
    Other,
}

#[derive(Debug, Clone, Copy, PartialEq, Eq, Structural)]
pub enum SettlementStatus {
    Pending,
    Completed,
}

/// A reimbursement agreed between two users for one transaction. Its status
/// is changed from outside; nothing here moves it on.
#[derive(Debug, Clone, PartialEq, Eq)]
pub struct SettlementInfo {
    pub settlement_id: String,
    pub creditor_user_id: UserId,
    pub debtor_user_id: UserId,
    pub status: SettlementStatus,
}

/// One financial event of a user.
#[derive(Debug, Clone)]
pub struct Transaction {
    pub transaction_id: TransactionId,
    pub user_id: UserId,
    pub transaction_type: TransactionType,
    pub amount: Amount,
    pub description: String,
    pub category: TransactionCategory,
    pub tags: Vec<String>,
    pub transaction_date: Timestamp,
    pub settlement_info: Option<SettlementInfo>,
    pub created_at: Timestamp,
    pub updated_at: Timestamp,
}

impl Transaction {
    /// The tags, in the order they were added.
    pub open spec fn tag_view(&self) -> Seq<Seq<char>> {
        texts(self.tags@)
    }

    /// No tag is carried twice.
    pub open spec fn wf(&self) -> bool {
        self.tag_view().no_duplicates()
    }

    /// `a` and `b` agree on every field but the tags and the modification time.
    pub open spec fn same_but_tags(a: Transaction, b: Transaction) -> bool {
        &&& a.transaction_id == b.transaction_id
        &&& a.user_id == b.user_id
        &&& a.transaction_type == b.transaction_type
        &&& a.amount == b.amount
        &&& a.description == b.description
        &&& a.category == b.category
        &&& a.transaction_date == b.transaction_date
        &&& a.settlement_info == b.settlement_info
        &&& a.created_at == b.created_at
    }

    /// What adding `tag` at time `at` does: nothing at all, the modification
    /// time included, when the transaction carries it already; else the tag
    /// is appended and the modification time becomes `at`.
    pub open spec fn tag_added(
        before: Transaction,
        after: Transaction,
        tag: Seq<char>,
        at: Timestamp,
    ) -> bool {
        if before.tag_view().contains(tag) {
            after == before
        } else {
            &&& after.tag_view() == before.tag_view().push(tag)
            &&& after.updated_at == at
            &&& Self::same_but_tags(before, after)
        }
    }

    /// What removing `tag` at time `at` does: every copy of it goes, the other
    /// tags keep their order, and the modification time becomes `at` whether
    /// or not the tag was there.
    pub open spec fn tag_removed(
        before: Transaction,
        after: Transaction,
        tag: Seq<char>,
        at: Timestamp,
    ) -> bool {
        &&& after.tag_view() == before.tag_view().filter(other_than(tag))
        &&& after.updated_at == at
        &&& Self::same_but_tags(before, after)
    }

    /// A new transaction with identifier `id`, no tags and no settlement,
    /// dated, created and modified at `at`.
    pub fn new_at(
        user_id: UserId,
        transaction_type: TransactionType,
        amount: Amount,
        description: String,
        category: TransactionCategory,
        id: TransactionId,
        at: Timestamp,
    ) -> (r: Transaction)
        ensures
            r.transaction_id == id,
            r.user_id == user_id,
            r.transaction_type == transaction_type,
            r.amount == amount,
            r.description == description,
            r.category == category,
            r.tags@.len() == 0,
            r.settlement_info is None,
            r.transaction_date == at,
            r.created_at == at,
            r.updated_at == at,
            r.wf(),
    {
        Transaction {
            transaction_id: id,
            user_id,
            transaction_type,
            amount,
            description,
            category,
            tags: Vec::new(),
            transaction_date: at,
            settlement_info: None,
            created_at: at,
            updated_at: at,
        }
    }

    /// A new transaction with a fresh identifier, no tags and no settlement,
    /// dated, created and modified at the current time (see
    /// [`Transaction::new_at`]).
    pub fn new(
        user_id: UserId,
        transaction_type: TransactionType,
        amount: Amount,
        description: String,
        category: TransactionCategory,
    ) -> (r: Transaction)
        ensures
            r.user_id == user_id,
            r.transaction_type == transaction_type,
            r.amount == amount,
            r.description == description,
            r.category == category,
            r.tags@.len() == 0,
            r.settlement_info is None,
            r.transaction_date == r.created_at,
            r.updated_at == r.created_at,
            r.created_at.seconds >= 0,
            is_hyphenated_uuid(r.transaction_id@),
            r.wf(),
    {
        let id = TransactionId::generate();
        Transaction::new_at(user_id, transaction_type, amount, description, category, id, now())
    }

    /// Whether the transaction counts against the household budget.
    pub fn affects_budget(&self) -> (r: bool)
        ensures
            r == (self.transaction_type == TransactionType::Real),
    {
        self.transaction_type == TransactionType::Real
    }

    /// Replaces the description and the category where a new one is given,
    /// and sets the modification time to `at`, even when neither is given.
    pub fn update_at(
        &mut self,
        description: Option<String>,
        category: Option<TransactionCategory>,
        at: Timestamp,
    )
        ensures
            final(self).description == (match description {
                Some(d) => d,
                None => old(self).description,
            }),
            final(self).category == (match category {
                Some(c) => c,
                None => old(self).category,
            }),
            final(self).updated_at == at,
            final(self).transaction_id == old(self).transaction_id,
            final(self).user_id == old(self).user_id,
            final(self).transaction_type == old(self).transaction_type,
            final(self).amount == old(self).amount,
            final(self).tags == old(self).tags,
            final(self).transaction_date == old(self).transaction_date,
            final(self).settlement_info == old(self).settlement_info,
            final(self).created_at == old(self).created_at,
    {
        if let Some(desc) = description {
            self.description = desc;
        }
        if let Some(cat) = category {
            self.category = cat;
        }
        self.updated_at = at;
    }

    /// [`Transaction::update_at`] at the current time.
    pub fn update(&mut self, description: Option<String>, category: Option<TransactionCategory>)
        ensures
            final(self).description == (match description {
                Some(d) => d,
                None => old(self).description,
            }),
            final(self).category == (match category {
                Some(c) => c,
                None => old(self).category,
            }),
            final(self).updated_at.seconds >= 0,
            final(self).transaction_id == old(self).transaction_id,
            final(self).user_id == old(self).user_id,
            final(self).transaction_type == old(self).transaction_type,
            final(self).amount == old(self).amount,
            final(self).tags == old(self).tags,
            final(self).transaction_date == old(self).transaction_date,
            final(self).settlement_info == old(self).settlement_info,
            final(self).created_at == old(self).created_at,
    {
        self.update_at(description, category, now());
    }

    /// Adds a tag the transaction does not carry yet, setting the modification
    /// time to `at`; a tag already carried leaves everything as it was.
    pub fn add_tag_at(&mut self, tag: String, at: Timestamp)
        ensures
            Self::tag_added(*old(self), *final(self), tag@, at),
            old(self).wf() ==> final(self).wf(),
    {
        if !contains_text(&self.tags, &tag) {
            let ghost before = self.tags@;
            self.tags.push(tag);
            proof {
                assert(texts(self.tags@) =~= texts(before).push(tag@));
                if texts(before).no_duplicates() {
                    lemma_push_keeps_distinct(texts(before), tag@);
                }
            }
            self.updated_at = at;
        }
    }

    /// [`Transaction::add_tag_at`] at the current time.
    pub fn add_tag(&mut self, tag: String)
        ensures
            Self::tag_added(*old(self), *final(self), tag@, final(self).updated_at),
            old(self).wf() ==> final(self).wf(),
    {
        self.add_tag_at(tag, now());
    }

    /// Removes the tag if present and sets the modification time to `at` in
    /// any case.
    pub fn remove_tag_at(&mut self, tag: &str, at: Timestamp)
        ensures
            Self::tag_removed(*old(self), *final(self), tag@, at),
            old(self).wf() ==> final(self).wf(),
    {
        let target = String::from_str(tag);
        let ghost before = self.tag_view();
        self.tags = without_text(&self.tags, &target);
        proof {
            if before.no_duplicates() {
                lemma_filter_keeps_distinct(before, other_than(tag@));
            }
        }
        self.updated_at = at;
    }

    /// [`Transaction::remove_tag_at`] at the current time.
    pub fn remove_tag(&mut self, tag: &str)
        ensures
            Self::tag_removed(*old(self), *final(self), tag@, final(self).updated_at),
            old(self).wf() ==> final(self).wf(),
    {
        self.remove_tag_at(tag, now());
    }
}

/// Adding a tag that a transaction already carries changes nothing, not even
/// its modification time. So after one tag is added twice, at `at1` and then
/// at `at2`, it is carried exactly once (present, and no tag twice), and the
/// second addition left the transaction, modification time included, as the
/// first one made it.
pub proof fn lemma_add_tag_twice(
    t0: Transaction,
    t1: Transaction,
    t2: Transaction,
    tag: Seq<char>,
    at1: Timestamp,
    at2: Timestamp,
)
    requires
        t0.wf(),
        Transaction::tag_added(t0, t1, tag, at1),
        Transaction::tag_added(t1, t2, tag, at2),
    ensures
        t2 == t1,
        t2.updated_at == t1.updated_at,
        t2.tag_view().contains(tag),
        t2.tag_view().no_duplicates(),
{
    if !t0.tag_view().contains(tag) {
        let v = t1.tag_view();
        assert(v[v.len() - 1] == tag);
        lemma_push_keeps_distinct(t0.tag_view(), tag);
    }
}

} // verus!
