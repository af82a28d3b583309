use raytracer::dimension::Dimension;

#[test]
fn dimension_keeps_its_value() {
    assert_eq!(Dimension::from_const(256).value(), 256);
    assert_eq!(usize::from(Dimension::from(9)), 9);
    assert_eq!(*Dimension::from_const(4), 4);
}

#[test]
fn dimension_changes_in_place() {
    let mut d = Dimension::from_const(3);
    *d += 2;
    assert_eq!(d, Dimension::from_const(5));
}

#[test]
fn steps_between_counts_upward_only() {
    let two = Dimension::from_const(2);
    let seven = Dimension::from_const(7);
    assert_eq!(Dimension::steps_between(&two, &seven), Some(5));
    assert_eq!(Dimension::steps_between(&seven, &seven), Some(0));
    assert_eq!(Dimension::steps_between(&seven, &two), None);
}

#[test]
fn forward_checked_stops_at_the_largest_count() {
    assert_eq!(Dimension::forward_checked(Dimension::from_const(3), 4), Some(Dimension::from_const(7)));
    assert_eq!(
        Dimension::forward_checked(Dimension::from_const(usize::MAX - 1), 1),
        Some(Dimension::from_const(usize::MAX))
    );
    assert_eq!(Dimension::forward_checked(Dimension::from_const(usize::MAX), 1), None);
}

#[test]
fn backward_checked_stops_at_zero() {
    assert_eq!(Dimension::backward_checked(Dimension::from_const(3), 3), Some(Dimension::from_const(0)));
    assert_eq!(Dimension::backward_checked(Dimension::from_const(3), 4), None);
}

#[test]
fn dimensions_add_and_subtract() {
    let a = Dimension::from_const(144);
    let b = Dimension::from_const(1);
    assert_eq!(a + b, Dimension::from_const(145));
    assert_eq!(a - b, Dimension::from_const(143));
}
