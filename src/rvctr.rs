//! The capability every bridgeable native type provides.
use vstd::prelude::*;
use crate::helpers::{na_text, opt_cloned, selected, vctr_extend, vctr_len, vctr_show, vctr_subset};

verus! {

/// The class tag of a type that declares no class of its own.
pub open spec fn fallback_class() -> Seq<char> {
    seq!['e', 'x', 't', 'e', 'n', 'd', 'r', '_', 'v', 'c', 't', 'r']
}

/// A native value that the host can treat as a vector: it reports display
/// strings and a length, selects by one-based index, and concatenates.
pub trait Rvctr: Sized {
    /// The host-visible class tag of the type.
    spec fn spec_class() -> Seq<char>;

    /// The logical number of elements.
    spec fn spec_len(&self) -> nat;

    /// `r` is what `show` may return for `self`.
    spec fn spec_show(&self, r: Seq<String>) -> bool;

    /// `r` is what `subset` may return for `self` and indices `idx`.
    spec fn spec_subset(&self, idx: Seq<Option<i32>>, r: Self) -> bool;

    /// `r` is what `extend` may return for `self` followed by `y`.
    spec fn spec_extend(&self, y: &Self, r: Self) -> bool;

    /// The host-visible class tag.
    fn class() -> (r: &'static str)
        ensures
            r@ == Self::spec_class(),
    ;

    /// One display string per element, in order.
    fn show(&self) -> (r: Vec<String>)
        ensures
            r.len() == self.spec_len(),
            self.spec_show(r@),
    ;

    /// The length as a nullable host integer: NA (`None`) only for a length
    /// that a host integer cannot hold.
    fn length(&self) -> (r: Option<i32>)
        ensures
            r == (if self.spec_len() <= i32::MAX {
                Some(self.spec_len() as i32)
            } else {
                None::<i32>
            }),
    ;

    /// The elements that the one-based indices `idx` select.
    fn subset(&self, idx: Vec<Option<i32>>) -> (r: Self)
        ensures
            self.spec_subset(idx@, r),
    ;

    /// The elements of `self` followed by those of `y`.
    fn extend(self, y: Self) -> (r: Self)
        ensures
            self.spec_extend(&y, r),
    ;
}

/// A vector of optional elements, the missing ones shown as `NA`.
impl<T: std::fmt::Debug + Clone> Rvctr for Vec<Option<T>> {
    open spec fn spec_class() -> Seq<char> {
        fallback_class()
    }

    open spec fn spec_len(&self) -> nat {
        self@.len()
    }

    open spec fn spec_show(&self, r: Seq<String>) -> bool {
        forall|k: int| 0 <= k < self.len() && #[trigger] self@[k].is_none() ==> r[k]@ == na_text()
    }

    open spec fn spec_subset(&self, idx: Seq<Option<i32>>, r: Self) -> bool {
        &&& r@.len() == idx.len()
        &&& forall|k: int| 0 <= k < idx.len() ==> opt_cloned(#[trigger] selected(self@, idx[k]), r@[k])
    }

    open spec fn spec_extend(&self, y: &Self, r: Self) -> bool {
        r@ == self@ + y@
    }

    fn class() -> (r: &'static str) {
        proof {
            reveal_strlit("extendr_vctr");
        }
        "extendr_vctr"
    }

    fn show(&self) -> (r: Vec<String>) {
        vctr_show(self)
    }

    fn length(&self) -> (r: Option<i32>) {
        if self.len() <= i32::MAX as usize {
            Some(vctr_len(self))
        } else {
            None
        }
    }

    fn subset(&self, idx: Vec<Option<i32>>) -> (r: Self) {
        vctr_subset(self, idx)
    }

    fn extend(self, y: Self) -> (r: Self) {
        vctr_extend(self, y)
    }
}

/// The empty vector: no elements, and every operation yields it again.
impl Rvctr for () {
    open spec fn spec_class() -> Seq<char> {
        fallback_class()
    }

    open spec fn spec_len(&self) -> nat {
        0
    }

    open spec fn spec_show(&self, r: Seq<String>) -> bool {
        r.len() == 0
    }

    open spec fn spec_subset(&self, idx: Seq<Option<i32>>, r: Self) -> bool {
        true
    }

    open spec fn spec_extend(&self, y: &Self, r: Self) -> bool {
        true
    }

    fn class() -> (r: &'static str) {
        proof {
            reveal_strlit("extendr_vctr");
        }
        "extendr_vctr"
    }

    fn show(&self) -> (r: Vec<String>) {
        Vec::new()
    }

    fn length(&self) -> (r: Option<i32>) {
        Some(0)
    }

    fn subset(&self, idx: Vec<Option<i32>>) -> (r: Self) {
        *self
    }

    fn extend(self, y: Self) -> (r: Self) {
        self
    }
}

} // verus!
