//! The four host-callable operations of a registered native type: each
//! reads its handles, runs the native operation and wraps the result.
use vstd::prelude::*;
use crate::rvctr::Rvctr;
use crate::vctr::{tag_spec, take_native, unwrap_spec, wrap_spec, HostValue, Vctr, VctrError};

verus! {

/// What an entry point that produces a native value `s` hands back: the
/// tagged handle of `s`, or `TooLong` where a host vector cannot hold it.
pub open spec fn wrapped_result<T: Rvctr>(s: T, r: Result<HostValue<T>, VctrError>) -> bool {
    if s.spec_len() <= i32::MAX {
        r is Ok && r->Ok_0@ == Some(tag_spec(wrap_spec(s)))
    } else {
        r == Err::<HostValue<T>, VctrError>(VctrError::TooLong)
    }
}

/// Wraps a native result and tags it for the host.
fn wrap_result<T: Rvctr + Clone>(s: T) -> (r: Result<HostValue<T>, VctrError>)
    ensures
        wrapped_result(s, r),
{
    match s.length() {
        None => Err(VctrError::TooLong),
        Some(_) => Ok(Vctr::wrap(s).into_host()),
    }
}

/// Display strings of the native value behind `x`.
pub fn show_entry<T: Rvctr>(x: HostValue<T>) -> (r: Result<Vec<String>, VctrError>)
    ensures
        match unwrap_spec(x@) {
            Ok(v) => r is Ok && r->Ok_0.len() == v.spec_len() && v.spec_show(r->Ok_0@),
            Err(e) => r == Err::<Vec<String>, VctrError>(e),
        },
{
    match take_native(x) {
        Ok(v) => Ok(v.show()),
        Err(e) => Err(e),
    }
}

/// Length of the native value behind `x`, as a nullable host integer.
pub fn length_entry<T: Rvctr>(x: HostValue<T>) -> (r: Result<Option<i32>, VctrError>)
    ensures
        match unwrap_spec(x@) {
            Ok(v) => r == Ok::<Option<i32>, VctrError>(
                if v.spec_len() <= i32::MAX {
                    Some(v.spec_len() as i32)
                } else {
                    None::<i32>
                },
            ),
            Err(e) => r == Err::<Option<i32>, VctrError>(e),
        },
{
    match take_native(x) {
        Ok(v) => Ok(v.length()),
        Err(e) => Err(e),
    }
}

/// The elements of the native value behind `x` that the one-based indices
/// `idx` select, as a new handle.
pub fn subset_entry<T: Rvctr + Clone>(x: HostValue<T>, idx: Vec<Option<i32>>) -> (r: Result<
    HostValue<T>,
    VctrError,
>)
    ensures
        match unwrap_spec(x@) {
            Ok(v) => exists|s: T| #[trigger] v.spec_subset(idx@, s) && wrapped_result(s, r),
            Err(e) => r == Err::<HostValue<T>, VctrError>(e),
        },
{
    let ghost idx_view = idx@;
    match take_native(x) {
        Ok(v) => {
            let s = v.subset(idx);
            let r = wrap_result(s);
            assert(v.spec_subset(idx_view, s) && wrapped_result(s, r));
            r
        },
        Err(e) => Err(e),
    }
}

/// The native value behind `x` followed by the one behind `y`, as a new
/// handle; `x` is read first, so its failure is the one reported.
pub fn extend_entry<T: Rvctr + Clone>(x: HostValue<T>, y: HostValue<T>) -> (r: Result<
    HostValue<T>,
    VctrError,
>)
    ensures
        match (unwrap_spec(x@), unwrap_spec(y@)) {
            (Ok(a), Ok(b)) => exists|s: T| #[trigger] a.spec_extend(&b, s) && wrapped_result(s, r),
            (Err(e), _) => r == Err::<HostValue<T>, VctrError>(e),
            (Ok(_), Err(e)) => r == Err::<HostValue<T>, VctrError>(e),
        },
{
    let a = match take_native(x) {
        Ok(a) => a,
        Err(e) => {
            return Err(e);
        },
    };
    let b = match take_native(y) {
        Ok(b) => b,
        Err(e) => {
            return Err(e);
        },
    };
    let ghost a0 = a;
    let ghost b0 = b;
    let s = a.extend(b);
    let r = wrap_result(s);
    assert(a0.spec_extend(&b0, s) && wrapped_result(s, r));
    r
}

} // verus!
