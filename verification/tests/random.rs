use gen_random_tree::random::generate_random_string;

#[test]
fn empty_request_gives_empty_string() {
    assert_eq!(generate_random_string(0), "");
}

#[test]
fn length_matches_request_exactly() {
    for len in [1usize, 2, 26, 1000] {
        let s = generate_random_string(len);
        assert_eq!(s.len(), len);
        assert_eq!(s.chars().count(), len);
    }
}

#[test]
fn content_is_lowercase_ascii_letters() {
    let s = generate_random_string(100000);
    assert_eq!(s.len(), 100000);
    assert!(s.bytes().all(|b| (b'a'..=b'z').contains(&b)));
}
