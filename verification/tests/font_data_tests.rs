use gdi_rs::{
    get_font_data_on_read, get_font_data_on_size, get_font_file_data_on_collection,
    has_font_data, table_tag, FontDataRequest, FontDataStep, FontFileStep, GDI_ERROR,
};
use windows::Win32::Graphics::Gdi;

#[test]
fn gdi_error_matches_the_gdi_constant() {
    assert_eq!(GDI_ERROR, Gdi::GDI_ERROR as u32);
}

#[test]
fn table_tags_are_big_endian() {
    assert_eq!(table_tag(*b"ttcf"), u32::from_be_bytes(*b"ttcf"));
    assert_eq!(table_tag(*b"ttcf"), 0x7474_6366);
    assert_eq!(table_tag(*b"GSUB"), u32::from_be_bytes(*b"GSUB"));
    assert_eq!(table_tag([0xFF; 4]), u32::MAX);
    assert_eq!(table_tag([0; 4]), 0);
}

#[test]
fn requests_for_the_collection_and_the_directory() {
    let c = FontDataRequest::collection();
    assert_eq!(c, FontDataRequest { table: u32::from_be_bytes(*b"ttcf"), offset: 0 });
    assert_eq!(FontDataRequest::table_directory(), FontDataRequest { table: 0, offset: 0 });
}

#[test]
fn has_font_data_by_reported_size() {
    assert!(!has_font_data(GDI_ERROR));
    assert!(!has_font_data(0));
    assert!(has_font_data(1));
    assert!(has_font_data(12_345));
    assert!(has_font_data(GDI_ERROR - 1));
}

#[test]
fn on_size_reads_into_a_zeroed_buffer_of_that_size() {
    match get_font_data_on_size(5) {
        FontDataStep::Read(buffer) => assert_eq!(buffer, vec![0u8; 5]),
        FontDataStep::NoData => panic!("expected a read"),
    }
    assert!(matches!(get_font_data_on_size(0), FontDataStep::NoData));
    assert!(matches!(get_font_data_on_size(GDI_ERROR), FontDataStep::NoData));
}

#[test]
fn on_size_agrees_with_has_font_data() {
    for size in [0u32, 1, 2, 100, 4096, GDI_ERROR] {
        let reads = matches!(get_font_data_on_size(size), FontDataStep::Read(_));
        assert_eq!(reads, has_font_data(size));
    }
}

#[test]
fn on_read_keeps_the_buffer_unless_the_read_failed() {
    assert_eq!(get_font_data_on_read(vec![1, 2, 3], 3), Some(vec![1, 2, 3]));
    assert_eq!(get_font_data_on_read(vec![1, 2, 3], 0), Some(vec![1, 2, 3]));
    assert_eq!(get_font_data_on_read(vec![1, 2, 3], GDI_ERROR), None);
}

#[test]
fn font_file_prefers_the_collection() {
    match get_font_file_data_on_collection(Some(vec![b't', b't', b'c', b'f'])) {
        FontFileStep::Done(data) => assert_eq!(data, b"ttcf".to_vec()),
        FontFileStep::Fetch(_) => panic!("expected the collection"),
    }
    match get_font_file_data_on_collection(None) {
        FontFileStep::Fetch(request) => assert_eq!(request, FontDataRequest::table_directory()),
        FontFileStep::Done(_) => panic!("expected a fetch"),
    }
}
