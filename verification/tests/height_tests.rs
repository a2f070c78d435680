use hyperspace_cosmos::height::Height;

#[test]
fn height_encode_writes_both_numbers() {
    assert_eq!(Height::new(1, 100).encode(), "1-100");
    assert_eq!(Height::zero().encode(), "0-0");
    assert_eq!(
        Height::new(u64::MAX, u64::MAX).encode(),
        "18446744073709551615-18446744073709551615"
    );
}

#[test]
fn height_decode_reads_what_encode_wrote() {
    for h in [
        Height::new(0, 0),
        Height::new(0, 1),
        Height::new(1, 100),
        Height::new(7, 18446744073709551615),
        Height::new(18446744073709551615, 0),
    ] {
        assert_eq!(Height::decode(&h.encode()), Some(h));
    }
}

#[test]
fn height_decode_refuses_malformed_text() {
    assert_eq!(Height::decode(""), None);
    assert_eq!(Height::decode("-"), None);
    assert_eq!(Height::decode("12"), None);
    assert_eq!(Height::decode("1-"), None);
    assert_eq!(Height::decode("-1"), None);
    assert_eq!(Height::decode("1-2-3"), None);
    assert_eq!(Height::decode("a-1"), None);
    assert_eq!(Height::decode("1-+2"), None);
    assert_eq!(Height::decode("1 -2"), None);
    assert_eq!(Height::decode("1-18446744073709551616"), None);
    assert_eq!(Height::decode("001-0100"), Some(Height::new(1, 100)));
}

#[test]
fn height_order_is_by_revision_then_by_block() {
    assert!(Height::new(0, 5).lt(Height::new(0, 6)));
    assert!(Height::new(0, 500).lt(Height::new(1, 1)));
    assert!(!Height::new(1, 1).lt(Height::new(0, 500)));
    assert!(!Height::new(2, 3).lt(Height::new(2, 3)));
    assert!(Height::new(2, 3).le(Height::new(2, 3)));
    assert_eq!(Height::new(0, 9).later(Height::new(1, 0)), Height::new(1, 0));
    assert!(Height::zero().is_zero());
    assert!(!Height::new(0, 1).is_zero());
    assert_eq!(Height::new(3, u64::MAX).checked_add(1), None);
    assert_eq!(Height::new(3, 4).checked_add(6), Some(Height::new(3, 10)));
}
