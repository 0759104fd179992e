use platform::host::{check_result_sizes, constant_refcount, panic_report, LayoutMismatch, TraitObject};

#[test]
fn application_panics_are_reported() {
    assert_eq!(
        panic_report(0, "division by zero"),
        Some("Roc hit a panic: division by zero".to_string())
    );
    assert_eq!(panic_report(0, ""), Some("Roc hit a panic: ".to_string()));
    assert_eq!(panic_report(1, "other"), None);
    assert_eq!(panic_report(u32::MAX, "other"), None);
}

#[test]
fn heap_strings_become_constant() {
    assert_eq!(constant_refcount(24, i64::MIN), Some(0));
    assert_eq!(constant_refcount(1000, i64::MIN), Some(0));
    assert_eq!(constant_refcount(23, 5), None);
    assert_eq!(constant_refcount(0, 0), None);
}

#[test]
fn result_sizes_checked_in_order() {
    assert_eq!(check_result_sizes(8, 8, 8, 4, 0, 8), Ok(()));
    assert_eq!(check_result_sizes(8, 16, 8, 8, 8, 8), Err(LayoutMismatch::Continuation));
    assert_eq!(check_result_sizes(8, 4, 8, 8, 8, 8), Err(LayoutMismatch::Continuation));
    assert_eq!(check_result_sizes(8, 8, 9, 9, 9, 9), Err(LayoutMismatch::DbExecute));
    assert_eq!(check_result_sizes(8, 8, 8, 9, 9, 9), Err(LayoutMismatch::DbFetchAll));
    assert_eq!(check_result_sizes(8, 8, 8, 8, 9, 9), Err(LayoutMismatch::DbFetchOne));
    assert_eq!(check_result_sizes(8, 8, 8, 8, 8, 9), Err(LayoutMismatch::LoadBody));
}

#[test]
fn trait_objects_copy_their_addresses() {
    let t = TraitObject { data: 0x10, vtable: 0x20 };
    let u = t;
    assert_eq!(t, u);
    assert_eq!(u.data, 0x10);
    assert_eq!(u.vtable, 0x20);
}
