use drawing_diff::ref_into_string;

#[test]
fn formats_values_via_display() {
    assert_eq!(ref_into_string(42u32), "42");
    assert_eq!(ref_into_string("no file chosen"), "no file chosen");
}
