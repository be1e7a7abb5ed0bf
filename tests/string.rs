use javascriptcore::JSString;

#[test]
fn from_conversion() {
    let a: JSString = "abc".into();
    let b: JSString = "abc".to_owned().into();
    assert_eq!(a, a);
    assert_eq!(a, b);
    assert_eq!(b, b);

    let c: JSString = "def".into();
    assert_ne!(a, c);

    let d: JSString = "abcdef".into();
    assert_ne!(a, d);

    let e: String = (&d).into();
    assert_eq!(e, "abcdef");
}

#[test]
fn equality() {
    let a: JSString = "abc".into();
    let s: String = "abc".to_owned();

    assert_eq!(a, "abc");
    assert_eq!(a, s);

    assert_eq!("abc", a);
    assert_eq!(s, a);
}

#[test]
fn string_len() {
    let a: JSString = "😄".into();

    assert_eq!(a.len(), 2);
    assert_eq!(a.to_string().len(), 4);

    let b: JSString = "∀𝑥∈ℝ,𝑥²≥0".into();

    assert_eq!(b.len(), 11);
    assert_eq!(b.to_string().len(), 24);
}

#[test]
fn is_empty() {
    assert!(JSString::from("").is_empty());
    assert!(!JSString::from("abc").is_empty());
}

#[test]
fn units_of_astral_character_are_a_surrogate_pair() {
    let a = JSString::from_text("a😄");
    assert_eq!(a.units(), &[0x61, 0xD83D, 0xDE04]);
}

#[test]
fn units_round_trip_through_text() {
    let a = JSString::from_units(vec![0x68, 0x69, 0xD83D, 0xDE04]);
    assert_eq!(a.to_string(), "hi😄");
    assert!(a.eq_text("hi😄"));
    assert!(!a.eq_text("hi"));
}

#[test]
fn empty_strings_are_equal() {
    let a = JSString::from("");
    let b = JSString::from_units(Vec::new());
    assert_eq!(a, b);
    assert_eq!(a.to_string(), "");
    assert_eq!(a.len(), 0);
}

#[test]
fn strings_differing_in_one_unit_differ() {
    let a = JSString::from("abc");
    let b = JSString::from("abd");
    assert!(!a.eq_string(&b));
    assert_ne!(a, "ab");
}
