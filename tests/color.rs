use raytracer::color::{validate_channel_states, ColorValidationStates as State, Errors};
use raytracer::error::DistanceCannotBeNegative;

#[test]
fn channels_in_range_are_accepted() {
    assert_eq!(validate_channel_states([State::Valid, State::Valid, State::Valid]), Ok(()));
}

#[test]
fn a_channel_below_range_is_a_below_error() {
    // the channels of (-1, 55, 255)
    assert_eq!(validate_channel_states([State::Below, State::Valid, State::Valid]), Err(Errors::Below));
    assert_eq!(validate_channel_states([State::Below, State::Below, State::Below]), Err(Errors::Below));
}

#[test]
fn a_channel_above_range_is_an_above_error() {
    // the channels of (256, 55, 0)
    assert_eq!(validate_channel_states([State::Above, State::Valid, State::Valid]), Err(Errors::Above));
    assert_eq!(validate_channel_states([State::Valid, State::Valid, State::Above]), Err(Errors::Above));
}

#[test]
fn channels_on_both_sides_are_an_above_and_below_error() {
    // the channels of (256, -1, 0)
    assert_eq!(
        validate_channel_states([State::Above, State::Below, State::Valid]),
        Err(Errors::AboveAndBelow)
    );
    assert_eq!(
        validate_channel_states([State::Valid, State::Below, State::Above]),
        Err(Errors::AboveAndBelow)
    );
}

#[test]
fn color_errors_carry_a_message() {
    assert_eq!(Errors::Below.message(), "Some color value or values are below the lowest limit");
    assert_eq!(Errors::Above.message(), "Some color value or values are above the highest limit");
    assert_eq!(
        Errors::AboveAndBelow.message(),
        "Some color values are above and some are below the valid limit"
    );
}

#[test]
fn negative_distance_message() {
    assert_eq!(DistanceCannotBeNegative.message(), "Distance cannot be a negative value");
}
