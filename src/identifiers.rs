use vstd::prelude::*;

use crate::lists::Textual;

verus! {

/// A lower-case hexadecimal digit.
pub open spec fn is_lower_hex_digit(c: char) -> bool {
    ('0' <= c && c <= '9') || ('a' <= c && c <= 'f')
}

/// The hyphenated text form of a random (version 4) UUID: 36 characters,
/// lower-case hexadecimal digits with a `-` at positions 8, 13, 18 and 23, and
/// the version digit `4` at position 14.
pub open spec fn is_hyphenated_uuid(s: Seq<char>) -> bool {
    &&& s.len() == 36
    &&& s[14] == '4'
    &&& forall|i: int|
        0 <= i < 36 ==> if i == 8 || i == 13 || i == 18 || i == 23 {
            s[i] == '-'
        } else {
            is_lower_hex_digit(#[trigger] s[i])
        }
}

/// Relies on uuid::Uuid::new_v4 for a fresh random identifier, which sets the
/// version to 4, written out by its `Display` impl in the hyphenated
/// lower-case form. It panics only when
/// the operating system cannot supply random bytes.
#[verifier::external_body]
pub(crate) fn random_uuid_text() -> (r: String)
    ensures
        is_hyphenated_uuid(r@),
{
    uuid::Uuid::new_v4().to_string()
}

/// Identifies a user; compared by its text.
#[derive(Debug, Clone, Hash)]
pub struct UserId(pub String);

impl View for UserId {
    type V = Seq<char>;

    open spec fn view(&self) -> Seq<char> {
        self.0@
    }
}

impl PartialEq for UserId {
    fn eq(&self, o: &UserId) -> (r: bool) {
        self.0 == o.0
    }
}

impl vstd::std_specs::cmp::PartialEqSpecImpl for UserId {
    open spec fn obeys_eq_spec() -> bool {
        true
    }

    open spec fn eq_spec(&self, o: &UserId) -> bool {
        self@ == o@
    }
}

impl Eq for UserId {
}

impl Textual for UserId {
    fn same_text(&self, other: &UserId) -> (r: bool) {
        self.0 == other.0
    }

    fn copy_text(&self) -> (r: UserId) {
        UserId(self.0.clone())
    }
}

impl UserId {
    pub fn new(id: String) -> (r: UserId)
        ensures
            r@ == id@,
    {
        UserId(id)
    }

    pub fn value(&self) -> (r: &str)
        ensures
            r@ == self@,
    {
        self.0.as_str()
    }
}

/// Identifies a transaction; compared by its text.
#[derive(Debug, Clone, Hash)]
pub struct TransactionId(pub String);

impl View for TransactionId {
    type V = Seq<char>;

    open spec fn view(&self) -> Seq<char> {
        self.0@
    }
}

impl PartialEq for TransactionId {
    fn eq(&self, o: &TransactionId) -> (r: bool) {
        self.0 == o.0
    }
}

impl vstd::std_specs::cmp::PartialEqSpecImpl for TransactionId {
    open spec fn obeys_eq_spec() -> bool {
        true
    }

    open spec fn eq_spec(&self, o: &TransactionId) -> bool {
        self@ == o@
    }
}

impl Eq for TransactionId {
}

impl TransactionId {
    pub fn new(id: String) -> (r: TransactionId)
        ensures
            r@ == id@,
    {
        TransactionId(id)
    }

    /// A fresh random identifier.
    pub fn generate() -> (r: TransactionId)
        ensures
            is_hyphenated_uuid(r@),
    {
        TransactionId(random_uuid_text())
    }

    pub fn value(&self) -> (r: &str)
        ensures
            r@ == self@,
    {
        self.0.as_str()
    }
}

/// Identifies a group; compared by its text.
#[derive(Debug, Clone, Hash)]
pub struct GroupId(pub String);

impl View for GroupId {
    type V = Seq<char>;

    open spec fn view(&self) -> Seq<char> {
        self.0@
    }
}

impl PartialEq for GroupId {
    fn eq(&self, o: &GroupId) -> (r: bool) {
        self.0 == o.0
    }
}

impl vstd::std_specs::cmp::PartialEqSpecImpl for GroupId {
    open spec fn obeys_eq_spec() -> bool {
        true
    }

    open spec fn eq_spec(&self, o: &GroupId) -> bool {
        self@ == o@
    }
}

impl Eq for GroupId {
}

impl GroupId {
    pub fn new(id: String) -> (r: GroupId)
        ensures
            r@ == id@,
    {
        GroupId(id)
    }

    /// A fresh random identifier.
    pub fn generate() -> (r: GroupId)
        ensures
            is_hyphenated_uuid(r@),
    {
        GroupId(random_uuid_text())
    }

    pub fn value(&self) -> (r: &str)
        ensures
            r@ == self@,
    {
        self.0.as_str()
    }
}

} // verus!
