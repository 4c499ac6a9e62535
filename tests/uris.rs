use video_thumbs::encoding::data_uri;

#[test]
fn data_uri_wraps_base64_payload() {
    assert_eq!(data_uri(b"hello"), "data:image/jpeg;base64,aGVsbG8=");
    assert_eq!(data_uri(&[0xff, 0xd8, 0xff, 0xe0]), "data:image/jpeg;base64,/9j/4A==");
}

#[test]
fn data_uri_of_empty_image() {
    assert_eq!(data_uri(&[]), "data:image/jpeg;base64,");
}

