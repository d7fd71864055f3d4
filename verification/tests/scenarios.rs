use secwords::{Error, ParseFault, Password, Reduction, Sha256};

#[test]
fn minimum_length_is_counted_in_bytes() {
    assert!(Password::<Sha256, 6>::new("123456".to_string()).is_ok());
    match Password::<Sha256, 6>::new("1234".to_string()) {
        Err(e) => assert_eq!(e, Error::InvalidLength { required: 6, actual: 4 }),
        Ok(_) => panic!("a text of four bytes was admitted"),
    }
    match Password::<Sha256, 10>::new("이도하".to_string()) {
        Err(e) => assert_eq!(e, Error::InvalidLength { required: 10, actual: 9 }),
        Ok(_) => panic!("a text of nine bytes was admitted"),
    }
}

#[test]
fn empty_text_with_no_minimum_is_admitted() {
    let password = Password::<Sha256, 0>::new(String::new()).unwrap();
    assert_eq!(password.len(), 32);
    assert!(password == "");
}

#[test]
fn text_of_exactly_the_minimum_matches_itself() {
    let password = Password::<Sha256, 7>::new("secretA".to_string()).unwrap();
    assert!(password.eq_original("secretA".to_string()));
}

#[test]
fn hex_round_trip_gives_an_equal_container() {
    let first = Password::<Sha256, 8>::new("12345678".to_string()).unwrap();
    let hex = first.to_hex().unwrap();
    let restored = Password::<Sha256, 8>::from_hex(&hex).unwrap();
    assert!(restored == first);
    assert_eq!(restored.as_ref(), first.as_ref());
}

#[test]
fn bytes_round_trip_gives_an_equal_container() {
    let first = Password::<Sha256, 8>::new("12345678".to_string()).unwrap();
    let bytes = first.to_bytes();
    assert_eq!(bytes.len(), 32);
    let restored = Password::<Sha256, 8>::from_bytes(&bytes).unwrap();
    assert!(restored == first);
}

#[test]
fn composed_and_decomposed_spellings_agree() {
    let composed = Password::<Sha256, 5>::new("caf\u{e9}".to_string()).unwrap();
    let decomposed = Password::<Sha256, 5>::new("cafe\u{301}".to_string()).unwrap();
    assert!(composed == decomposed);
    assert!(composed == "cafe\u{301}");
    assert!(decomposed == "caf\u{e9}");
}

#[test]
fn combining_marks_and_precomposed_letters_agree_in_longer_text() {
    let combining = "alie\u{301}nee\u{300}bre, a\u{301}cido";
    let precomposed = "ali\u{e9}ne\u{e8}bre, \u{e1}cido";
    assert_eq!(combining.len(), 23);
    assert_eq!(precomposed.len(), 20);
    let container = Password::<Sha256, 5>::new(combining.to_string()).unwrap();
    assert!(container == precomposed);
    assert!(container == Password::<Sha256, 5>::new(precomposed.to_string()).unwrap());
}

#[test]
fn compatibility_characters_are_decomposed() {
    let ligature = Password::<Sha256, 5>::new("\u{fb01}12345".to_string()).unwrap();
    let letters = Password::<Sha256, 5>::new("fi12345".to_string()).unwrap();
    assert!(ligature == letters);
}

#[test]
fn spelling_is_measured_before_it_is_normalized() {
    assert!(Password::<Sha256, 6>::new("caf\u{e9}".to_string()).is_err());
    assert!(Password::<Sha256, 6>::new("cafe\u{301}".to_string()).is_ok());
}

#[test]
fn candidates_are_accepted_or_refused_without_error() {
    let container = Password::<Sha256, 6>::new("secretA".to_string()).unwrap();
    assert!(container == "secretA");
    assert!(!(container == "secretB"));
    assert!(!(container == "short"));
    assert!(container.eq_original("secretA".to_string()));
    assert!(!container.eq_original("secretB".to_string()));
    assert!(!container.eq_original("short".to_string()));
    assert!(container != String::from("short"));
}

#[test]
fn short_candidate_does_not_match_a_wiped_container() {
    let mut wiped = Password::<Sha256, 6>::new("secretA".to_string()).unwrap();
    wiped.zeroize();
    assert_eq!(wiped.len(), 0);
    assert!(!wiped.eq_original("short".to_string()));
    assert!(!wiped.eq_original(String::new()));
    assert!(!(wiped == "short"));
    assert!(!wiped.eq_original("secretA".to_string()));
}

#[test]
fn bytes_of_the_wrong_length_are_refused() {
    match Password::<Sha256, 6>::from_bytes(&[7u8; 31]) {
        Err(e) => assert_eq!(e, Error::Parse(ParseFault::Length)),
        Ok(_) => panic!("31 bytes were taken for a digest"),
    }
    match Password::<Sha256, 6>::from_bytes(&[7u8; 33]) {
        Err(e) => assert_eq!(e, Error::Parse(ParseFault::Length)),
        Ok(_) => panic!("33 bytes were taken for a digest"),
    }
    assert!(Password::<Sha256, 6>::from_bytes(&[]).is_err());
}

#[test]
fn bytes_of_the_right_length_are_kept_as_they_are() {
    let bytes: Vec<u8> = (0u8..32).collect();
    let container = Password::<Sha256, 6>::from_bytes(&bytes).unwrap();
    assert_eq!(container.to_bytes(), bytes);
    assert_eq!(container.as_slice(), bytes.as_slice());
}

#[test]
fn wiping_leaves_nothing_stored() {
    let mut container = Password::<Sha256, 6>::new("secretA".to_string()).unwrap();
    assert_eq!(container.len(), 32);
    container.zeroize();
    assert_eq!(container.len(), 0);
    assert!(container.to_bytes().is_empty());
    container.zeroize();
    assert!(container.is_empty());
}

#[test]
fn clone_is_equal_and_independent() {
    let mut first = Password::<Sha256, 6>::new("secretA".to_string()).unwrap();
    let second = first.clone();
    assert!(first == second);
    first.zeroize();
    assert!(first != second);
    assert!(second == "secretA");
}

#[test]
fn print_is_the_same_for_every_container() {
    let a = Password::<Sha256, 6>::new("secretA".to_string()).unwrap();
    let b = Password::<Sha256, 6>::from_bytes(&[0xffu8; 32]).unwrap();
    assert_eq!(a.to_string(), "***SECURE***");
    assert_eq!(b.to_string(), "***SECURE***");
}

#[test]
fn every_container_is_made_with_the_output_size() {
    let text = Password::<Sha256, 6>::new("secretA".to_string()).unwrap();
    let bytes = Password::<Sha256, 6>::from_bytes(&[1u8; 32]).unwrap();
    let hex = Password::<Sha256, 6>::from_hex(&"ab".repeat(32)).unwrap();
    let parsed: Password<Sha256, 6> = "secretA".parse().unwrap();
    for container in [text, bytes, hex, parsed] {
        assert_eq!(container.len(), Sha256::output_size());
        assert!(Password::<Sha256, 6>::from_bytes(&container.to_bytes()).is_ok());
        assert!(Password::<Sha256, 6>::from_hex(&container.to_hex().unwrap()).is_ok());
    }
}

#[test]
fn known_digests() {
    let cases = [
        ("123456", "28e35c46435fe2871da8a5373087abf8790144532cbd4bf9a69a197f43387b20"),
        ("testman", "0cf28962989d1155677aa1d69c58f87c1f74aa5c00e4dae8d266d6111b14e501"),
        ("pa5$wOrs", "0f521249b366dd6e0acc13407adfaf2859c69a978f648d50a4be286b0b848582"),
        ("caf\u{e9}", "c49d18bd1e730b21e4f143eea6c7f109effa273a39270bf56353a90d3b680c9a"),
        ("이도하", "b795c43bd6afb1ca01fc3f1aa571e73a0505dd5f642d89ec39b7b6791229eb90"),
    ];
    for (text, digest) in cases {
        let container = Password::<Sha256, 3>::new(text.to_string()).unwrap();
        assert_eq!(container.to_hex().unwrap(), digest);
    }
}

#[test]
fn reduction_of_sha256() {
    assert_eq!(Sha256::output_size(), 32);
    let out = Sha256::reduce(b"123456");
    assert_eq!(out.len(), 32);
    assert_ne!(out.as_slice(), b"123456".as_slice());
    assert_eq!(out[0], 0x28);
    assert_eq!(out[31], 0x20);
    assert_eq!(out, Sha256::reduce(b"123456"));
    assert_ne!(out, Sha256::reduce(b"123457"));
}
