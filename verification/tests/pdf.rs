use drawing_diff::pdf::clamp_page_count;
use drawing_diff::pdf::page_selection;
use drawing_diff::Pdf;

#[test]
fn invalid_document_bytes_are_rejected() {
    // Whether or not a pdfium library is installed, these bytes are no
    // document: the error surfaces as a message, never as a panic.
    let result = Pdf::from_bytes(vec![0x25, 0x50, 0x44, 0x46, 0x00]);
    assert!(result.is_err());
}

#[test]
fn page_counts_clamp_into_u16() {
    assert_eq!(clamp_page_count(-3), 0);
    assert_eq!(clamp_page_count(0), 0);
    assert_eq!(clamp_page_count(42), 42);
    assert_eq!(clamp_page_count(65535), 65535);
    assert_eq!(clamp_page_count(70000), 65535);
}

#[test]
fn page_selection_takes_the_common_range() {
    assert_eq!(page_selection(5, 3, 0), (3, 0));
    assert_eq!(page_selection(5, 3, 7), (3, 2));
    assert_eq!(page_selection(2, 9, 1), (2, 1));
    assert_eq!(page_selection(0, 4, 5), (0, 0));
}
