use chess_rules::numbers::MyNumTrait;

#[test]
fn even_and_odd_split_the_bytes() {
    for n in 0..=255u8 {
        assert_eq!(n.is_even(), n % 2 == 0);
        assert_eq!(n.is_odd(), n % 2 == 1);
        assert_ne!(n.is_even(), n.is_odd());
    }
}

#[test]
fn zero_is_even_and_the_largest_byte_is_odd() {
    assert!(0u8.is_even());
    assert!(255u8.is_odd());
    assert!(!7u8.is_even());
    assert!(!6u8.is_odd());
}

#[test]
fn distance_is_exact() {
    assert_eq!(3u8.distance(7), 4);
    assert_eq!(7u8.distance(3), 4);
    assert_eq!(5u8.distance(5), 0);
    assert_eq!(0u8.distance(255), 255);
    assert_eq!(255u8.distance(0), 255);
}

#[test]
fn distance_does_not_depend_on_the_order() {
    for a in 0..=255u8 {
        for b in 0..=255u8 {
            assert_eq!(a.distance(b), b.distance(a));
        }
    }
}
