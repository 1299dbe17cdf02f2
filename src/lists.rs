use vstd::prelude::*;

verus! {

/// A value that stands for a piece of text and can be compared and copied by
/// that text.
pub trait Textual: View<V = Seq<char>> + Sized {
    /// Whether both values have the same text.
    fn same_text(&self, other: &Self) -> (r: bool)
        ensures
            r == (self@ == other@),
    ;

    /// A new value with the same text.
    fn copy_text(&self) -> (r: Self)
        ensures
            r@ == self@,
    ;
}

impl Textual for String {
    fn same_text(&self, other: &String) -> (r: bool) {
        *self == *other
    }

    fn copy_text(&self) -> (r: String) {
        self.clone()
    }
}

/// The texts of a sequence of values.
pub open spec fn texts<T: View<V = Seq<char>>>(v: Seq<T>) -> Seq<Seq<char>> {
    v.map_values(|t: T| t@)
}

/// The test "differs from `x`", for filtering.
pub open spec fn other_than(x: Seq<char>) -> spec_fn(Seq<char>) -> bool {
    |t: Seq<char>| t != x
}

/// Appending a value a sequence does not hold keeps it free of duplicates.
pub(crate) proof fn lemma_push_keeps_distinct<A>(s: Seq<A>, x: A)
    requires
        s.no_duplicates(),
        !s.contains(x),
    ensures
        s.push(x).no_duplicates(),
{
    let v = s.push(x);
    assert forall|i: int, j: int| 0 <= i < v.len() && 0 <= j < v.len() && i != j implies v[i]
        != v[j] by {
        if i < v.len() - 1 && j < v.len() - 1 {
            assert(v[i] == s[i] && v[j] == s[j]);
        } else if i < v.len() - 1 {
            assert(v[i] == s[i]);
        } else {
            assert(v[j] == s[j]);
        }
    }
}

/// Appending keeps what a sequence holds.
pub(crate) proof fn lemma_push_keeps_contents<A>(s: Seq<A>, x: A, y: A)
    requires
        s.contains(y),
    ensures
        s.push(x).contains(y),
{
    let k = choose|k: int| 0 <= k < s.len() && s[k] == y;
    assert(s.push(x)[k] == y);
}

/// Filtering keeps a sequence free of duplicates.
pub(crate) proof fn lemma_filter_keeps_distinct<A>(s: Seq<A>, p: spec_fn(A) -> bool)
    requires
        s.no_duplicates(),
    ensures
        s.filter(p).no_duplicates(),
    decreases s.len(),
{
    reveal(Seq::filter);
    if s.len() > 0 {
        let init = s.drop_last();
        assert(init.no_duplicates());
        lemma_filter_keeps_distinct(init, p);
        if p(s.last()) {
            if init.filter(p).contains(s.last()) {
                init.lemma_filter_contains_rev(p, s.last());
                let k = choose|k: int| 0 <= k < init.len() && init[k] == s.last();
                assert(s[k] == s[s.len() - 1] && k != s.len() - 1);
            }
            lemma_push_keeps_distinct(init.filter(p), s.last());
        }
    }
}

/// Removing a value that a sequence does not hold leaves it as it is.
pub(crate) proof fn lemma_filter_identity_when_absent(s: Seq<Seq<char>>, x: Seq<char>)
    requires
        !s.contains(x),
    ensures
        s.filter(other_than(x)) == s,
    decreases s.len(),
{
    reveal(Seq::filter);
    if s.len() > 0 {
        let init = s.drop_last();
        assert(!init.contains(x)) by {
            if init.contains(x) {
                let k = choose|k: int| 0 <= k < init.len() && init[k] == x;
                assert(s[k] == x);
            }
        }
        lemma_filter_identity_when_absent(init, x);
        assert(s[s.len() - 1] != x);
        assert(init.push(s.last()) =~= s);
    }
}

/// Whether some element of `v` has the text of `x`.
pub(crate) fn contains_text<T: Textual>(v: &Vec<T>, x: &T) -> (r: bool)
    ensures
        r == texts(v@).contains(x@),
{
    let mut i: usize = 0;
    while i < v.len()
        invariant
            i <= v.len(),
            forall|j: int| 0 <= j < i ==> v@[j]@ != x@,
        decreases v.len() - i,
    {
        if v[i].same_text(x) {
            assert(texts(v@)[i as int] == x@);
            return true;
        }
        i += 1;
    }
    assert(!texts(v@).contains(x@)) by {
        if texts(v@).contains(x@) {
            let k = choose|k: int| 0 <= k < texts(v@).len() && texts(v@)[k] == x@;
            assert(v@[k]@ == x@);
        }
    }
    false
}

/// The elements of `v` whose text differs from that of `x`, in order.
pub(crate) fn without_text<T: Textual>(v: &Vec<T>, x: &T) -> (r: Vec<T>)
    ensures
        texts(r@) == texts(v@).filter(other_than(x@)),
{
    let mut r: Vec<T> = Vec::new();
    let mut i: usize = 0;
    while i < v.len()
        invariant
            i <= v.len(),
            texts(r@) == texts(v@.subrange(0, i as int)).filter(other_than(x@)),
        decreases v.len() - i,
    {
        proof {
            assert(texts(v@.subrange(0, i + 1)) =~= texts(v@.subrange(0, i as int)).push(
                v@[i as int]@,
            ));
            texts(v@.subrange(0, i as int)).lemma_filter_push(v@[i as int]@, other_than(x@));
        }
        if !v[i].same_text(x) {
            let ghost before = r@;
            r.push(v[i].copy_text());
            proof {
                assert(texts(r@) =~= texts(before).push(v@[i as int]@));
            }
        }
        i += 1;
    }
    assert(v@.subrange(0, v.len() as int) =~= v@);
    r
}

} // verus!
