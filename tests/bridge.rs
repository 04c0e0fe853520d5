use extendr_vctrs::entry::{extend_entry, length_entry, show_entry, subset_entry};
use extendr_vctrs::helpers::{vctr_extend, vctr_len, vctr_show, vctr_subset};
use extendr_vctrs::rvctr::Rvctr;
use extendr_vctrs::vctr::{take_native, unwrap_native, HostValue, IntVector, SideAttr, Vctr, VctrError};

fn host(data: Vec<Option<i32>>, ptr: SideAttr<Vec<Option<i32>>>) -> HostValue<Vec<Option<i32>>> {
    HostValue::Integers(IntVector { data, class: Vec::new(), ptr })
}

fn wrapped(v: Vec<Option<i32>>) -> HostValue<Vec<Option<i32>>> {
    Vctr::wrap(v).into_host()
}

fn parts(h: HostValue<Vec<Option<i32>>>) -> (Vec<Option<i32>>, Vec<String>, Vec<Option<i32>>) {
    match h {
        HostValue::Integers(IntVector { data, class, ptr: SideAttr::Native(v) }) => (data, class, v),
        _ => panic!("not a handle"),
    }
}

fn strings(v: &[&str]) -> Vec<String> {
    v.iter().map(|s| s.to_string()).collect()
}

#[test]
fn round_trip_through_handle() {
    let v = vec![Some(4), None, Some(-7)];
    let h = Vctr::wrap(v.clone());
    assert_eq!(h.try_into_inner(), Ok(v.clone()));
    assert_eq!(unwrap_native(&h.as_vctr()), Ok(v.clone()));
    assert_eq!(take_native(h.into_host()), Ok(v));
}

#[test]
fn round_trip_empty() {
    let v: Vec<Option<i32>> = Vec::new();
    assert_eq!(unwrap_native(&wrapped(v.clone())), Ok(v));
}

#[test]
fn wrap_payload_has_native_length() {
    let (data, _, _) = parts(wrapped(vec![Some(1), None, Some(3), None, Some(5)]));
    assert_eq!(data.len(), 5);
}

#[test]
fn subset_length_is_index_length() {
    let idx = vec![Some(2), Some(2), None, Some(9), Some(1), Some(-3), Some(2)];
    let r = subset_entry(wrapped(vec![Some(10), Some(20), Some(30)]), idx);
    let (data, _, v) = parts(r.ok().unwrap());
    assert_eq!(data.len(), 7);
    assert_eq!(v, vec![Some(20), Some(20), None, None, Some(10), None, Some(20)]);
}

#[test]
fn subset_out_of_range_is_missing() {
    let x = vec![Some(10), Some(20), Some(30)];
    assert_eq!(vctr_subset(&x, vec![Some(0), Some(4), Some(-1), None]), vec![None, None, None, None]);
}

#[test]
fn subset_picks_one_based() {
    let x = vec![Some(10), Some(20), Some(30)];
    assert_eq!(vctr_subset(&x, vec![Some(1), Some(3)]), vec![Some(10), Some(30)]);
}

#[test]
fn subset_of_missing_element_is_missing() {
    let x = vec![Some(10), None, Some(30)];
    assert_eq!(vctr_subset(&x, vec![Some(2), Some(3)]), vec![None, Some(30)]);
}

#[test]
fn subset_with_empty_index() {
    let x = vec![Some(10)];
    assert_eq!(vctr_subset(&x, Vec::new()), Vec::<Option<i32>>::new());
}

#[test]
fn subset_extreme_indices() {
    let x = vec![Some(10), Some(20)];
    assert_eq!(vctr_subset(&x, vec![Some(i32::MAX), Some(i32::MIN), Some(2)]), vec![None, None, Some(20)]);
}

#[test]
fn extend_keeps_order() {
    let r = vctr_extend(vec![Some(1), None], vec![None, Some(3)]);
    assert_eq!(r, vec![Some(1), None, None, Some(3)]);
    assert_eq!(r.len(), 4);
}

#[test]
fn extend_entry_keeps_order() {
    let r = extend_entry(wrapped(vec![Some(1), None]), wrapped(vec![None, Some(3)]));
    let (data, _, v) = parts(r.ok().unwrap());
    assert_eq!(v, vec![Some(1), None, None, Some(3)]);
    assert_eq!(data.len(), 4);
}

#[test]
fn extend_with_empty() {
    assert_eq!(vctr_extend(Vec::new(), vec![Some(2)]), vec![Some(2)]);
    assert_eq!(vctr_extend(vec![Some(2)], Vec::new()), vec![Some(2)]);
}

#[test]
fn foreign_reference_is_type_mismatch() {
    let h = host(vec![Some(0)], SideAttr::Foreign);
    assert_eq!(unwrap_native(&h), Err(VctrError::TypeMismatch));
    assert!(matches!(Vctr::try_from(h), Err(VctrError::TypeMismatch)));
}

#[test]
fn missing_attribute_is_not_a_handle() {
    let h = host(vec![Some(0), Some(0)], SideAttr::Absent);
    assert_eq!(unwrap_native(&h), Err(VctrError::NotAHandle));
    assert!(matches!(Vctr::try_from(h), Err(VctrError::NotAHandle)));
}

#[test]
fn non_integer_value_is_wrong_shape() {
    let h: HostValue<Vec<Option<i32>>> = HostValue::Other;
    assert_eq!(unwrap_native(&h), Err(VctrError::WrongShape));
    assert!(matches!(Vctr::try_from(HostValue::<Vec<Option<i32>>>::Other), Err(VctrError::WrongShape)));
}

#[test]
fn entries_report_unwrap_failures() {
    assert_eq!(show_entry(host(vec![], SideAttr::Absent)), Err(VctrError::NotAHandle));
    assert_eq!(length_entry(host(vec![], SideAttr::Foreign)), Err(VctrError::TypeMismatch));
    assert!(matches!(subset_entry(HostValue::<Vec<Option<i32>>>::Other, vec![Some(1)]), Err(VctrError::WrongShape)));
    assert!(matches!(
        extend_entry(wrapped(vec![Some(1)]), host(vec![], SideAttr::Foreign)),
        Err(VctrError::TypeMismatch)
    ));
    assert!(matches!(
        extend_entry(host(vec![], SideAttr::Absent), host(vec![], SideAttr::Foreign)),
        Err(VctrError::NotAHandle)
    ));
}

#[test]
fn try_from_keeps_payload() {
    let h = Vctr::try_from(host(vec![Some(5), None], SideAttr::Native(vec![Some(8)]))).ok().unwrap();
    assert_eq!(h.try_into_inner(), Ok(vec![Some(8)]));
    let (data, class, v) = parts(h.as_vctr());
    assert_eq!(data, vec![Some(5), None]);
    assert_eq!(class, strings(&["extendr_vctr", "vctrs_vctr"]));
    assert_eq!(v, vec![Some(8)]);
}

#[test]
fn show_formats_elements() {
    assert_eq!(vctr_show(&vec![Some(1), None, Some(3)]), strings(&["1", "NA", "3"]));
}

#[test]
fn show_uses_debug_text() {
    assert_eq!(vctr_show(&vec![Some("a"), None]), strings(&["\"a\"", "NA"]));
    assert_eq!(vctr_show(&vec![Some(-2i64)]), strings(&["-2"]));
}

#[test]
fn show_entry_and_handle_show() {
    assert_eq!(show_entry(wrapped(vec![Some(1), None, Some(3)])), Ok(strings(&["1", "NA", "3"])));
    assert_eq!(Vctr::wrap(vec![None::<i32>]).show(), Ok(strings(&["NA"])));
}

#[test]
fn length_reports_element_count() {
    assert_eq!(vctr_len(&vec![Some(1), None, Some(3)]), 3);
    assert_eq!(vec![Some(1), None].length(), Some(2));
    assert_eq!(length_entry(wrapped(vec![None, None, None, None])), Ok(Some(4)));
}

#[test]
fn tagging_twice_gives_equal_classes() {
    let h = Vctr::wrap(vec![Some(1), Some(2)]);
    let (_, first, _) = parts(h.as_vctr());
    let (_, second, _) = parts(h.as_vctr());
    assert_eq!(first, second);
    assert_eq!(first, strings(&["extendr_vctr", "vctrs_vctr"]));
}

#[test]
fn unit_vector_is_empty() {
    assert_eq!(<() as Rvctr>::class(), "extendr_vctr");
    assert_eq!(().length(), Some(0));
    assert_eq!(().show(), Vec::<String>::new());
    assert_eq!(().subset(vec![Some(1)]), ());
    assert_eq!(().extend(()), ());
}

#[test]
fn unit_handle_has_empty_payload() {
    match Vctr::wrap(()).into_host() {
        HostValue::Integers(iv) => {
            assert!(iv.data.is_empty());
            assert_eq!(iv.class, strings(&["extendr_vctr", "vctrs_vctr"]));
        }
        HostValue::Other => panic!("not a handle"),
    }
}

#[test]
fn vector_class_is_fallback() {
    assert_eq!(<Vec<Option<i32>> as Rvctr>::class(), "extendr_vctr");
}

#[test]
fn method_names_follow_class() {
    assert_eq!(
        extendr_vctrs::naming::method_names("my_class"),
        strings(&["format.my_class", "length.my_class", "`[.my_class`", "c.my_class"])
    );
}
