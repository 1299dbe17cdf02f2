use vstd::prelude::*;

use crate::clock::{now, Timestamp};
use crate::identifiers::{is_hyphenated_uuid, random_uuid_text, UserId};
use crate::lists::{
    contains_text, lemma_filter_identity_when_absent, lemma_filter_keeps_distinct,
    lemma_push_keeps_contents, lemma_push_keeps_distinct, other_than, texts, without_text,
};

verus! {

/// Users who share expenses. The owner is always a member.
#[derive(Debug, Clone)]
pub struct Group {
    pub group_id: String,
    pub name: String,
    pub description: String,
    pub owner_id: UserId,
    pub members: Vec<UserId>,
    pub created_at: Timestamp,
    pub updated_at: Timestamp,
}

impl Group {
    /// The members, in the order they joined.
    pub open spec fn member_view(&self) -> Seq<Seq<char>> {
        texts(self.members@)
    }

    /// No member is listed twice, and the owner is a member.
    pub open spec fn wf(&self) -> bool {
        self.member_view().no_duplicates() && self.member_view().contains(self.owner_id@)
    }

    /// `a` and `b` agree on every field but the members and the modification
    /// time.
    pub open spec fn same_but_members(a: Group, b: Group) -> bool {
        &&& a.group_id == b.group_id
        &&& a.name == b.name
        &&& a.description == b.description
        &&& a.owner_id == b.owner_id
        &&& a.created_at == b.created_at
    }

    /// What adding `user` at time `at` does: nothing at all when `user` is a
    /// member already; else `user` joins at the end and the modification time
    /// becomes `at`.
    pub open spec fn member_added(
        before: Group,
        after: Group,
        user: Seq<char>,
        at: Timestamp,
    ) -> bool {
        if before.member_view().contains(user) {
            after == before
        } else {
            &&& after.member_view() == before.member_view().push(user)
            &&& after.updated_at == at
            &&& Self::same_but_members(before, after)
        }
    }

    /// What removing `user` at time `at` does: nothing at all when `user` is
    /// the owner or no member; else `user` leaves, the others keep their
    /// order, and the modification time becomes `at`.
    pub open spec fn member_removed(
        before: Group,
        after: Group,
        user: Seq<char>,
        at: Timestamp,
    ) -> bool {
        if user == before.owner_id@ || !before.member_view().contains(user) {
            after == before
        } else {
            &&& after.member_view() == before.member_view().filter(other_than(user))
            &&& after.updated_at == at
            &&& Self::same_but_members(before, after)
        }
    }

    /// A group with identifier `group_id` whose only member is its owner,
    /// created and modified at `at`.
    pub fn new_at(
        name: String,
        description: String,
        owner_id: UserId,
        group_id: String,
        at: Timestamp,
    ) -> (r: Group)
        ensures
            r.group_id == group_id,
            r.name == name,
            r.description == description,
            r.owner_id == owner_id,
            r.member_view() == seq![owner_id@],
            r.created_at == at,
            r.updated_at == at,
            r.wf(),
    {
        let first = UserId(owner_id.0.clone());
        let mut members: Vec<UserId> = Vec::new();
        members.push(first);
        let r = Group {
            group_id,
            name,
            description,
            owner_id,
            members,
            created_at: at,
            updated_at: at,
        };
        assert(r.member_view() =~= seq![r.owner_id@]);
        assert(r.member_view()[0] == r.owner_id@);
        r
    }

    /// A group whose only member is its owner, with a fresh identifier,
    /// created and modified at the current time (see [`Group::new_at`]).
    pub fn new(name: String, description: String, owner_id: UserId) -> (r: Group)
        ensures
            r.name == name,
            r.description == description,
            r.owner_id == owner_id,
            r.member_view() == seq![owner_id@],
            r.updated_at == r.created_at,
            r.created_at.seconds >= 0,
            is_hyphenated_uuid(r.group_id@),
            r.wf(),
    {
        let id = random_uuid_text();
        Group::new_at(name, description, owner_id, id, now())
    }

    /// Adds a user who is not a member yet, setting the modification time to
    /// `at`; adding a member leaves everything as it was.
    pub fn add_member_at(&mut self, user_id: UserId, at: Timestamp)
        ensures
            Self::member_added(*old(self), *final(self), user_id@, at),
            old(self).wf() ==> final(self).wf(),
    {
        if !contains_text(&self.members, &user_id) {
            let ghost before = texts(self.members@);
            self.members.push(user_id);
            proof {
                assert(texts(self.members@) =~= before.push(user_id@));
                if before.no_duplicates() {
                    lemma_push_keeps_distinct(before, user_id@);
                }
                if before.contains(self.owner_id@) {
                    lemma_push_keeps_contents(before, user_id@, self.owner_id@);
                }
            }
            self.updated_at = at;
        }
    }

    /// [`Group::add_member_at`] at the current time.
    pub fn add_member(&mut self, user_id: UserId)
        ensures
            Self::member_added(*old(self), *final(self), user_id@, final(self).updated_at),
            old(self).wf() ==> final(self).wf(),
    {
        self.add_member_at(user_id, now());
    }

    /// Removes a member other than the owner, setting the modification time
    /// to `at`; removing the owner or a non-member leaves everything as it was.
    pub fn remove_member_at(&mut self, user_id: &UserId, at: Timestamp)
        ensures
            Self::member_removed(*old(self), *final(self), user_id@, at),
            old(self).wf() ==> final(self).wf(),
    {
        if !(*user_id == self.owner_id) && contains_text(&self.members, user_id) {
            let ghost before = self.member_view();
            self.members = without_text(&self.members, user_id);
            proof {
                if before.no_duplicates() {
                    lemma_filter_keeps_distinct(before, other_than(user_id@));
                }
                if before.contains(self.owner_id@) {
                    let k = choose|k: int| 0 <= k < before.len() && before[k] == self.owner_id@;
                    before.lemma_filter_contains(other_than(user_id@), k);
                }
            }
            self.updated_at = at;
        }
    }

    /// [`Group::remove_member_at`] at the current time.
    pub fn remove_member(&mut self, user_id: &UserId)
        ensures
            Self::member_removed(*old(self), *final(self), user_id@, final(self).updated_at),
            old(self).wf() ==> final(self).wf(),
    {
        self.remove_member_at(user_id, now());
    }

    /// Whether `user_id` is a member.
    pub fn is_member(&self, user_id: &UserId) -> (r: bool)
        ensures
            r == self.member_view().contains(user_id@),
    {
        contains_text(&self.members, user_id)
    }

    /// Whether `user_id` is the owner.
    pub fn is_owner(&self, user_id: &UserId) -> (r: bool)
        ensures
            r == (self.owner_id@ == user_id@),
    {
        self.owner_id == *user_id
    }
}

/// For a group whose members do not yet include `user`, or whose owner is
/// `user`, adding `user` and then removing it, at any times, gives back the
/// members it had. In particular a group just made for owner `U`, which holds
/// `U` alone, holds `U` alone again after any user is added and then removed.
pub proof fn lemma_add_then_remove_member(
    g0: Group,
    g1: Group,
    g2: Group,
    user: Seq<char>,
    at1: Timestamp,
    at2: Timestamp,
)
    requires
        g0.wf(),
        !g0.member_view().contains(user) || user == g0.owner_id@,
        Group::member_added(g0, g1, user, at1),
        Group::member_removed(g1, g2, user, at2),
    ensures
        g2.member_view() == g0.member_view(),
        g2.owner_id == g0.owner_id,
        g2.wf(),
{
    if !g0.member_view().contains(user) {
        let v = g0.member_view();
        assert(g1.member_view().contains(user)) by {
            assert(g1.member_view()[v.len() as int] == user);
        }
        if user != g0.owner_id@ {
            v.lemma_filter_push(user, other_than(user));
            lemma_filter_identity_when_absent(v, user);
        }
    }
}

} // verus!
