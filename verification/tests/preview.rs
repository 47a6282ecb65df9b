use bulkpixel::preview::{png_data_url, preview_data_url};

#[test]
fn builds_preview_data_urls() {
    assert_eq!(preview_data_url(&vec![1, 2, 3]), "data:image/png;base64,AQID");
    assert_eq!(preview_data_url(&b"hello world~".to_vec()), "data:image/png;base64,aGVsbG8gd29ybGR+");
    assert_eq!(preview_data_url(&vec![0xff]), "data:image/png;base64,/w==");
    assert_eq!(preview_data_url(&vec![]), "data:image/png;base64,");
    assert_eq!(png_data_url("iVBORw0KGgo="), "data:image/png;base64,iVBORw0KGgo=");
}
