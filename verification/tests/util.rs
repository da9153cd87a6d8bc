use bincode_fuzz::util::{discrete, try_discrete};
use std::time::Duration;

#[test]
fn discrete_counts_nanoseconds() {
    assert_eq!(discrete(Duration::from_millis(100)), 100_000_000);
    assert_eq!(discrete(Duration::from_millis(500)), 500_000_000);
    assert_eq!(discrete(Duration::from_millis(1500)), 1_500_000_000);
    assert_eq!(discrete(Duration::new(2, 5)), 2_000_000_005);
    assert_eq!(discrete(Duration::new(0, 999_999_999)), 999_999_999);
    assert_eq!(discrete(Duration::new(0, 0)), 0);
}

#[test]
fn discrete_of_the_longest_span_that_fits() {
    let longest = Duration::new(18_446_744_073, 709_551_615);
    assert_eq!(discrete(longest), u64::MAX);
    assert_eq!(try_discrete(longest), Some(u64::MAX));
}

#[test]
fn try_discrete_gives_nothing_where_the_number_does_not_fit() {
    assert_eq!(try_discrete(Duration::new(18_446_744_073, 709_551_616)), None);
    assert_eq!(try_discrete(Duration::new(18_446_744_074, 0)), None);
    assert_eq!(try_discrete(Duration::new(u64::MAX, 999_999_999)), None);
}

#[test]
fn try_discrete_agrees_with_discrete() {
    for millis in [0u64, 1, 99, 100, 500, 1000, 86_400_000] {
        let span = Duration::from_millis(millis);
        assert_eq!(try_discrete(span), Some(discrete(span)));
        assert_eq!(discrete(span), millis * 1_000_000);
    }
}
