use zombie_shooter::graphics::orientation::{Orientation, Stance, ORIENTATION_COUNT};

const ALL: [Orientation; 9] = [
    Orientation::Up,
    Orientation::Down,
    Orientation::Left,
    Orientation::Right,
    Orientation::UpLeft,
    Orientation::UpRight,
    Orientation::DownLeft,
    Orientation::DownRight,
    Orientation::Still,
];

#[test]
fn ordinals_follow_the_declared_order() {
    for (row, o) in ALL.iter().enumerate() {
        assert_eq!(o.ordinal(), row);
    }
    assert_eq!(ORIENTATION_COUNT, 9);
}

#[test]
fn from_ordinal_inverts_ordinal() {
    for o in ALL.iter() {
        assert_eq!(Orientation::from_ordinal(o.ordinal()), Some(*o));
    }
}

#[test]
fn from_ordinal_rejects_rows_past_the_last() {
    assert_eq!(Orientation::from_ordinal(9), None);
    assert_eq!(Orientation::from_ordinal(usize::MAX), None);
}

#[test]
fn only_still_is_undirected() {
    for o in ALL.iter() {
        assert_eq!(o.is_directed(), *o != Orientation::Still);
    }
}

#[test]
fn stance_predicates() {
    assert!(Stance::Still.is_stationary());
    assert!(!Stance::Walking.is_stationary());
    assert!(!Stance::Firing.is_stationary());
    assert!(!Stance::NormalDeath.is_stationary());
    assert!(Stance::Walking.is_moving());
    assert!(!Stance::Still.is_moving());
    assert!(Stance::Firing.is_firing());
    assert!(!Stance::Walking.is_firing());
}
