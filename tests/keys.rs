use video_thumbs::cache_key::{cache_key, entry_name, to_hex};

#[test]
fn clip_key_is_sha256_hex_of_path() {
    assert_eq!(
        cache_key("/videos/clip.mp4"),
        "c18d7f621047d41a0e1092dfc41d134ed6e88c8e98baa069c786360306eb51dc"
    );
}

#[test]
fn empty_path_key() {
    assert_eq!(
        cache_key(""),
        "e3b0c44298fc1c149afbf4c8996fb92427ae41e4649b934ca495991b7852b855"
    );
}

#[test]
fn key_hashes_utf8_bytes() {
    assert_eq!(
        cache_key("/视频/片段.mp4"),
        "0ab8ed78fa920307d6efc4fa899b7fb20af4806ddb17351ca7a3347003f95efd"
    );
}

#[test]
fn equal_paths_give_equal_keys() {
    let a = String::from("/videos/clip.mp4");
    let b = String::from("/videos/clip.mp4");
    assert_eq!(cache_key(&a), cache_key(&b));
    assert_eq!(entry_name(&a), entry_name(&b));
}

#[test]
fn distinct_paths_give_distinct_keys() {
    let corpus = [
        "/videos/clip.mp4",
        "/videos/clip.MP4",
        "/videos/clip.mp4 ",
        "/videos/clip2.mp4",
        "C:\\videos\\clip.mp4",
        "",
        "a",
        "/视频/片段.mp4",
    ];
    let keys: Vec<String> = corpus.iter().map(|p| cache_key(p)).collect();
    for i in 0..keys.len() {
        assert_eq!(keys[i].len(), 64);
        for j in (i + 1)..keys.len() {
            assert_ne!(keys[i], keys[j], "{} and {}", corpus[i], corpus[j]);
        }
    }
}

#[test]
fn entry_name_is_key_with_jpg() {
    assert_eq!(
        entry_name("/videos/clip.mp4"),
        "c18d7f621047d41a0e1092dfc41d134ed6e88c8e98baa069c786360306eb51dc.jpg"
    );
}

#[test]
fn hex_is_lowercase_two_digits_per_byte() {
    assert_eq!(to_hex(&[0x00, 0x0f, 0xa0, 0xff]), "000fa0ff");
    assert_eq!(to_hex(&[]), "");
}
