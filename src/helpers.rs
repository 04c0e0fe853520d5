//! Building blocks for vectors of optional elements: display, length,
//! one-based subsetting and concatenation.
use vstd::prelude::*;

verus! {

/// What one-based host index `i` selects from `x`: `None` for NA, for an
/// index out of `1..=x.len()`, or for a missing element.
pub open spec fn selected<T>(x: Seq<Option<T>>, i: Option<i32>) -> Option<T> {
    match i {
        Some(k) => if 1 <= k && k <= x.len() {
            x[k - 1]
        } else {
            None
        },
        None => None,
    }
}

/// `b` is `a`, up to cloning of the element it may hold.
pub open spec fn opt_cloned<T: Clone>(a: Option<T>, b: Option<T>) -> bool {
    match a {
        Some(v) => b.is_some() && cloned(v, b.unwrap()),
        None => b.is_none(),
    }
}

/// The host's rendering of a missing element.
pub open spec fn na_text() -> Seq<char> {
    seq!['N', 'A']
}

/// Relies on `format!("{:?}", ..)` of std: the element's `Debug` text.
#[verifier::external_body]
fn debug_text<T: std::fmt::Debug>(v: &T) -> (r: String) {
    format!("{:?}", v)
}

/// One display string per element of `x`, in order: `"NA"` for a missing
/// element, else the element's `Debug` text.
pub fn vctr_show<T: std::fmt::Debug>(x: &Vec<Option<T>>) -> (r: Vec<String>)
    ensures
        r.len() == x.len(),
        forall|k: int| 0 <= k < x.len() && #[trigger] x@[k].is_none() ==> r@[k]@ == na_text(),
{
    let mut res: Vec<String> = Vec::new();
    let mut j: usize = 0;
    while j < x.len()
        invariant
            j <= x.len(),
            res.len() == j,
            forall|k: int| 0 <= k < j && #[trigger] x@[k].is_none() ==> res@[k]@ == na_text(),
        decreases x.len() - j,
    {
        let text = match &x[j] {
            Some(v) => debug_text(v),
            None => {
                proof {
                    reveal_strlit("NA");
                }
                "NA".to_owned()
            },
        };
        res.push(text);
        j += 1;
    }
    res
}

/// The number of elements of `x`, as a host integer.
pub fn vctr_len<T>(x: &Vec<Option<T>>) -> (r: i32)
    requires
        x.len() <= i32::MAX,
    ensures
        r as int == x.len(),
{
    x.len() as i32
}

/// Picks, for each one-based index of `idx`, the element of `x` it selects.
pub fn vctr_subset<T: Clone>(x: &Vec<Option<T>>, idx: Vec<Option<i32>>) -> (r: Vec<Option<T>>)
    ensures
        r.len() == idx.len(),
        forall|k: int| 0 <= k < idx.len() ==> opt_cloned(#[trigger] selected(x@, idx@[k]), r@[k]),
{
    let x_len = x.len();
    let mut res: Vec<Option<T>> = Vec::new();
    let mut j: usize = 0;
    while j < idx.len()
        invariant
            x_len == x.len(),
            j <= idx.len(),
            res.len() == j,
            forall|k: int| 0 <= k < j ==> opt_cloned(#[trigger] selected(x@, idx@[k]), res@[k]),
        decreases idx.len() - j,
    {
        let item: Option<T> = match idx[j] {
            None => None,
            Some(i) => if i <= 0 || i as usize > x_len {
                None
            } else {
                x[(i - 1) as usize].clone()
            },
        };
        res.push(item);
        j += 1;
    }
    res
}

/// All elements of `x`, then all elements of `y`.
pub fn vctr_extend<T>(x: Vec<Option<T>>, y: Vec<Option<T>>) -> (r: Vec<Option<T>>)
    ensures
        r@ == x@ + y@,
{
    let mut x = x;
    let mut y = y;
    x.append(&mut y);
    x
}

} // verus!
