use mate::rules::{canonical_delta, canonical_pair, is_active, Direction};

#[test]
fn canonical_pair_orders_the_identifiers() {
    assert_eq!(canonical_pair(1, 2), (1, 2));
    assert_eq!(canonical_pair(2, 1), (1, 2));
    assert_eq!(canonical_pair(7, 7), (7, 7));
    assert_eq!(canonical_pair(u32::MAX, 0), (0, u32::MAX));
}

#[test]
fn canonical_pair_is_the_same_from_both_sides() {
    for (a, b) in [(1u32, 2u32), (40, 3), (5, 5), (0, u32::MAX)] {
        assert_eq!(canonical_pair(a, b), canonical_pair(b, a));
    }
}

#[test]
fn increase_by_the_low_party_adds_one() {
    assert_eq!(canonical_delta(1, 2, Direction::Increase), 1);
}

#[test]
fn increase_by_the_high_party_takes_one_away() {
    assert_eq!(canonical_delta(2, 1, Direction::Increase), -1);
}

#[test]
fn decrease_mirrors_increase() {
    assert_eq!(canonical_delta(1, 2, Direction::Decrease), -1);
    assert_eq!(canonical_delta(2, 1, Direction::Decrease), 1);
}

#[test]
fn an_account_paired_with_itself_counts_as_the_high_party() {
    assert_eq!(canonical_delta(3, 3, Direction::Increase), -1);
    assert_eq!(canonical_delta(3, 3, Direction::Decrease), 1);
}

#[test]
fn the_two_sides_never_move_the_count_the_same_way() {
    for (a, b) in [(1u32, 2u32), (9, 4), (0, u32::MAX)] {
        for direction in [Direction::Increase, Direction::Decrease] {
            assert_eq!(canonical_delta(a, b, direction), -canonical_delta(b, a, direction));
        }
    }
}

#[test]
fn only_friends_is_active() {
    assert!(is_active(&String::from("FRIENDS")));
    assert!(!is_active(&String::from("PENDING")));
    assert!(!is_active(&String::from("DECLINED")));
    assert!(!is_active(&String::from("BLOCKED")));
    assert!(!is_active(&String::from("friends")));
    assert!(!is_active(&String::from("FRIENDS ")));
    assert!(!is_active(&String::new()));
}
