//! Properties that relate the bridge's operations to one another.
use vstd::prelude::*;
use crate::rvctr::Rvctr;
use crate::vctr::{
    class_list, host_cloned, tag_spec, unwrap_spec, wrap_spec, IntVectorView, VctrError,
    VctrView,
};
use crate::entry::wrapped_result;
use crate::helpers::selected;

verus! {

/// Wrapping a native value and reading it back yields that value, whether it
/// is read from the handle or from the tagged host value.
pub proof fn lemma_round_trip<T: Rvctr>(v: T)
    ensures
        wrap_spec(v).native == v,
        unwrap_spec(Some(tag_spec(wrap_spec(v)))) == Ok::<T, VctrError>(v),
{
}

/// The payload of a wrapped value, and of its tagged host value, is as long
/// as the value itself.
pub proof fn lemma_wrap_length<T: Rvctr>(v: T)
    ensures
        wrap_spec(v).payload.len() == v.spec_len(),
        tag_spec(wrap_spec(v)).data.len() == v.spec_len(),
{
}

/// A subset of a vector has one element per index, and so does the handle
/// and the host value that the subset entry point makes of it.
pub proof fn lemma_subset_length<T: std::fmt::Debug + Clone>(
    x: Vec<Option<T>>,
    idx: Seq<Option<i32>>,
    s: Vec<Option<T>>,
    r: Result<crate::vctr::HostValue<Vec<Option<T>>>, VctrError>,
)
    requires
        x.spec_subset(idx, s),
        wrapped_result(s, r),
        r is Ok,
    ensures
        s.spec_len() == idx.len(),
        wrap_spec(s).payload.len() == idx.len(),
        r->Ok_0@->Some_0.data.len() == idx.len(),
{
}

/// An NA index, or one outside `1..=x.len()`, selects a missing element;
/// any other index selects the element at that one-based position.
pub proof fn lemma_subset_selection<T>(x: Seq<Option<T>>, i: Option<i32>)
    ensures
        i is None ==> selected(x, i) == None::<T>,
        forall|k: i32| i == Some(k) && (k <= 0 || k > x.len()) ==> selected(x, i) == None::<T>,
        forall|k: i32| i == Some(k) && 1 <= k <= x.len() ==> selected(x, i) == x[k - 1],
{
}

/// Reading a value that carries a native reference of another type fails
/// with `TypeMismatch`; one without a side attribute fails with
/// `NotAHandle`; one that is no integer vector fails with `WrongShape`.
pub proof fn lemma_unwrap_failures<T>(v: IntVectorView<T>)
    ensures
        v.ptr is Foreign ==> unwrap_spec(Some(v)) == Err::<T, VctrError>(VctrError::TypeMismatch),
        v.ptr is Absent ==> unwrap_spec(Some(v)) == Err::<T, VctrError>(VctrError::NotAHandle),
        unwrap_spec(None::<IntVectorView<T>>) == Err::<T, VctrError>(VctrError::WrongShape),
{
}

/// Tagging one handle twice gives equal class lists, the class list of its
/// native type.
pub proof fn lemma_tag_idempotent<T: Rvctr + Clone>(
    h: VctrView<T>,
    first: Option<IntVectorView<T>>,
    second: Option<IntVectorView<T>>,
)
    requires
        host_cloned(tag_spec(h), first),
        host_cloned(tag_spec(h), second),
    ensures
        first->Some_0.class == second->Some_0.class,
        first->Some_0.class == class_list(T::spec_class()),
{
}

} // verus!
