use spinout::counts::{overflows, upgrade_from, was_last, Count, Upgrade};

#[test]
fn an_upgrade_never_raises_a_count_of_zero() {
    assert_eq!(upgrade_from(0), Upgrade::Dead);
    assert_eq!(upgrade_from(1), Upgrade::Try { from: 1, to: 2 });
    assert_eq!(upgrade_from(41), Upgrade::Try { from: 41, to: 42 });
    assert_eq!(
        upgrade_from(usize::MAX - 1),
        Upgrade::Try { from: usize::MAX - 1, to: usize::MAX }
    );
    assert_eq!(upgrade_from(usize::MAX), Upgrade::Full);
}

#[test]
fn a_count_overflows_only_at_its_maximum() {
    assert!(!overflows(0));
    assert!(!overflows(1));
    assert!(!overflows(usize::MAX - 1));
    assert!(overflows(usize::MAX));
}

#[test]
fn the_last_handle_finds_a_count_of_one() {
    assert!(!was_last(0));
    assert!(was_last(1));
    assert!(!was_last(2));
    assert!(!was_last(usize::MAX));
}

#[test]
fn a_count_returns_what_it_held_before() {
    let mut count = Count::one();
    assert_eq!(count.load(), 1);
    assert_eq!(count.fetch_add(), 1);
    assert_eq!(count.fetch_add(), 2);
    assert_eq!(count.load(), 3);
    assert_eq!(count.fetch_sub(), 3);
    assert_eq!(count.load(), 2);
    assert_eq!(count.compare_exchange(5, 6), Err(2));
    assert_eq!(count.load(), 2);
    assert_eq!(count.compare_exchange(2, 6), Ok(2));
    assert_eq!(count.load(), 6);
}

#[test]
fn a_racing_upgrade_decides_again_from_what_it_finds() {
    // Two weak handles have both seen one strong handle; the second comes late.
    let mut strong = Count::one();
    let seen = strong.load();
    let (from, to) = match upgrade_from(seen) {
        Upgrade::Try { from, to } => (from, to),
        _ => unreachable!(),
    };
    assert_eq!(strong.compare_exchange(from, to), Ok(1));
    let late = strong.compare_exchange(from, to);
    assert_eq!(late, Err(2));
    assert_eq!(upgrade_from(2), Upgrade::Try { from: 2, to: 3 });
    assert_eq!(strong.compare_exchange(2, 3), Ok(2));
    // All three strong handles go; an upgrade that saw three must not revive the value.
    assert_eq!(strong.fetch_sub(), 3);
    assert_eq!(strong.fetch_sub(), 2);
    assert!(was_last(strong.fetch_sub()));
    assert_eq!(strong.compare_exchange(3, 4), Err(0));
    assert_eq!(upgrade_from(0), Upgrade::Dead);
    assert_eq!(strong.load(), 0);
}
