//! The opaque handle: a class-tagged integer placeholder on the host side
//! whose side attribute carries the native value.
use vstd::prelude::*;
use crate::rvctr::{fallback_class, Rvctr};

verus! {

/// The class tag that marks a value for generic vector behaviour.
pub open spec fn vector_like_class() -> Seq<char> {
    seq!['v', 'c', 't', 'r', 's', '_', 'v', 'c', 't', 'r']
}

/// The ordered class list of a handle whose native type has class `c`:
/// the specific class first, then the generic ones.
pub open spec fn class_list(c: Seq<char>) -> Seq<Seq<char>> {
    if c == fallback_class() {
        seq![fallback_class(), vector_like_class()]
    } else {
        seq![c, fallback_class(), vector_like_class()]
    }
}

/// What the side attribute of a host integer vector holds, as seen by a
/// reader that expects native type `T`.
pub enum SideAttr<T> {
    /// No side attribute.
    Absent,
    /// A native reference of some other type.
    Foreign,
    /// A native reference of type `T`.
    Native(T),
}

/// A host integer vector: its elements (`None` is NA), its class list and
/// its side attribute.
pub struct IntVector<T> {
    pub data: Vec<Option<i32>>,
    pub class: Vec<String>,
    pub ptr: SideAttr<T>,
}

/// A host value, as far as the bridge reads it.
pub enum HostValue<T> {
    Integers(IntVector<T>),
    /// Any value that is not an integer vector.
    Other,
}

/// The model of a host integer vector.
pub struct IntVectorView<T> {
    pub data: Seq<Option<i32>>,
    pub class: Seq<Seq<char>>,
    pub ptr: SideAttr<T>,
}

impl<T> View for HostValue<T> {
    /// `None` for a value that is not an integer vector.
    type V = Option<IntVectorView<T>>;

    open spec fn view(&self) -> Option<IntVectorView<T>> {
        match self {
            HostValue::Integers(v) => Some(
                IntVectorView {
                    data: v.data@,
                    class: v.class@.map_values(|s: String| s@),
                    ptr: v.ptr,
                },
            ),
            HostValue::Other => None,
        }
    }
}

/// Why a host value could not be read as a handle.
#[derive(Debug, Clone, Copy, PartialEq, Eq, Structural)]
pub enum VctrError {
    /// No side attribute: the value was never produced by wrapping.
    NotAHandle,
    /// The side attribute holds a native value of another type.
    TypeMismatch,
    /// The value is not a host integer vector at all.
    WrongShape,
    /// The result has more elements than a host vector can hold.
    TooLong,
}

/// The native value that reading `v` as type `T` yields, or why it fails.
pub open spec fn unwrap_spec<T>(v: Option<IntVectorView<T>>) -> Result<T, VctrError> {
    match v {
        None => Err(VctrError::WrongShape),
        Some(iv) => match iv.ptr {
            SideAttr::Absent => Err(VctrError::NotAHandle),
            SideAttr::Foreign => Err(VctrError::TypeMismatch),
            SideAttr::Native(x) => Ok(x),
        },
    }
}

/// Takes the native value out of a host value, consuming it.
pub fn take_native<T>(value: HostValue<T>) -> (r: Result<T, VctrError>)
    ensures
        r == unwrap_spec(value@),
{
    match value {
        HostValue::Other => Err(VctrError::WrongShape),
        HostValue::Integers(iv) => match iv.ptr {
            SideAttr::Absent => Err(VctrError::NotAHandle),
            SideAttr::Foreign => Err(VctrError::TypeMismatch),
            SideAttr::Native(x) => Ok(x),
        },
    }
}

/// `b` is `a`, up to cloning of the native value it may hold.
pub open spec fn result_cloned<T: Clone>(a: Result<T, VctrError>, b: Result<T, VctrError>) -> bool {
    match a {
        Ok(x) => b is Ok && cloned(x, b->Ok_0),
        Err(e) => b == Err::<T, VctrError>(e),
    }
}

/// Reads the native value out of a host value; the host keeps its own copy.
pub fn unwrap_native<T: Clone>(value: &HostValue<T>) -> (r: Result<T, VctrError>)
    ensures
        result_cloned(unwrap_spec(value@), r),
{
    match value {
        HostValue::Other => Err(VctrError::WrongShape),
        HostValue::Integers(iv) => match &iv.ptr {
            SideAttr::Absent => Err(VctrError::NotAHandle),
            SideAttr::Foreign => Err(VctrError::TypeMismatch),
            SideAttr::Native(x) => Ok(x.clone()),
        },
    }
}

/// A handle: the host-visible payload and the native value attached to it.
pub struct Vctr<T: Rvctr> {
    inner: Vec<Option<i32>>,
    native: T,
}

/// The model of a handle.
pub struct VctrView<T> {
    pub payload: Seq<Option<i32>>,
    pub native: T,
}

impl<T: Rvctr> View for Vctr<T> {
    type V = VctrView<T>;

    closed spec fn view(&self) -> VctrView<T> {
        VctrView { payload: self.inner@, native: self.native }
    }
}

/// The filler payload of `n` elements that wrapping allocates.
pub open spec fn filler(n: nat) -> Seq<Option<i32>> {
    Seq::new(n, |i: int| Some(0i32))
}

/// The handle that wrapping `v` yields.
pub open spec fn wrap_spec<T: Rvctr>(v: T) -> VctrView<T> {
    VctrView { payload: filler(v.spec_len()), native: v }
}

/// The host value that tagging handle `h` yields.
pub open spec fn tag_spec<T: Rvctr>(h: VctrView<T>) -> IntVectorView<T> {
    IntVectorView { data: h.payload, class: class_list(T::spec_class()), ptr: SideAttr::Native(h.native) }
}

/// `b` is the host value `a`, up to cloning of the native value it holds.
pub open spec fn host_cloned<T: Clone>(a: IntVectorView<T>, b: Option<IntVectorView<T>>) -> bool {
    &&& b is Some
    &&& b->Some_0.data == a.data
    &&& b->Some_0.class == a.class
    &&& match (a.ptr, b->Some_0.ptr) {
        (SideAttr::Native(x), SideAttr::Native(y)) => cloned(x, y),
        (p, q) => p == q,
    }
}

/// The class list of native type `T`, as host strings.
fn class_tags<T: Rvctr>() -> (r: Vec<String>)
    ensures
        r@.map_values(|s: String| s@) == class_list(T::spec_class()),
{
    proof {
        reveal_strlit("extendr_vctr");
        reveal_strlit("vctrs_vctr");
    }
    let t_class = T::class().to_owned();
    let fallback = "extendr_vctr".to_owned();
    let vector_like = "vctrs_vctr".to_owned();
    assert(fallback@ =~= fallback_class());
    assert(vector_like@ =~= vector_like_class());
    let class = if t_class == fallback {
        vec![fallback, vector_like]
    } else {
        vec![t_class, fallback, vector_like]
    };
    assert(class@.map_values(|s: String| s@) =~= class_list(T::spec_class()));
    class
}

impl<T: Rvctr + Clone> Vctr<T> {
    /// Wraps a native value: a filler payload of its length, with the value
    /// attached.
    pub fn wrap(value: T) -> (h: Self)
        requires
            value.spec_len() <= i32::MAX,
        ensures
            h@ == wrap_spec(value),
    {
        let n: i32 = match value.length() {
            Some(n) => n,
            None => 0,
        };
        let mut inner: Vec<Option<i32>> = Vec::new();
        let mut j: i32 = 0;
        while j < n
            invariant
                n as int == value.spec_len(),
                0 <= j <= n,
                inner@ == filler(j as nat),
            decreases n - j,
        {
            inner.push(Some(0));
            j += 1;
            assert(inner@ =~= filler(j as nat));
        }
        assert(inner@ =~= filler(value.spec_len()));
        Vctr { inner, native: value }
    }

    /// Reads a host value as a handle of native type `T`, keeping its
    /// payload; fails when it is no integer vector, carries no side
    /// attribute, or carries one of another type.
    pub fn try_from(value: HostValue<T>) -> (r: Result<Self, VctrError>)
        ensures
            match unwrap_spec(value@) {
                Ok(x) => r is Ok && r->Ok_0@ == (VctrView { payload: value@->Some_0.data, native: x }),
                Err(e) => r is Err && r->Err_0 == e,
            },
    {
        match value {
            HostValue::Other => Err(VctrError::WrongShape),
            HostValue::Integers(iv) => match iv.ptr {
                SideAttr::Absent => Err(VctrError::NotAHandle),
                SideAttr::Foreign => Err(VctrError::TypeMismatch),
                SideAttr::Native(x) => Ok(Vctr { inner: iv.data, native: x }),
            },
        }
    }

    /// The host value for this handle: its payload, tagged with the class
    /// list of `T`, with a copy of the native value attached.
    pub fn as_vctr(&self) -> (r: HostValue<T>)
        ensures
            host_cloned(tag_spec(self@), r@),
    {
        let class = class_tags::<T>();
        HostValue::Integers(
            IntVector { data: self.inner.clone(), class, ptr: SideAttr::Native(self.native.clone()) },
        )
    }

    /// The host value for this handle, consuming it: its payload, tagged
    /// with the class list of `T`, with the native value attached.
    pub fn into_host(self) -> (r: HostValue<T>)
        ensures
            r@ == Some(tag_spec(self@)),
    {
        let class = class_tags::<T>();
        HostValue::Integers(IntVector { data: self.inner, class, ptr: SideAttr::Native(self.native) })
    }

    /// A copy of the attached native value.
    pub fn try_into_inner(&self) -> (r: Result<T, VctrError>)
        ensures
            result_cloned(Ok(self@.native), r),
    {
        Ok(self.native.clone())
    }

    /// The display strings of the attached native value.
    pub fn show(&self) -> (r: Result<Vec<String>, VctrError>)
        ensures
            r is Ok,
            r->Ok_0.len() == self@.native.spec_len(),
            self@.native.spec_show(r->Ok_0@),
    {
        Ok(self.native.show())
    }
}

} // verus!
