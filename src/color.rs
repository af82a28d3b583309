use vstd::prelude::*;

verus! {

/// Where one colour channel value lies relative to the displayable range.
#[derive(Debug, Clone, Copy, PartialEq, Eq, Structural, PartialOrd, Ord, Hash)]
pub enum ColorValidationStates {
    Above,
    Below,
    Valid,
}

/// Why a colour was refused: which side or sides of the displayable range its
/// channels left.
#[derive(Debug, Clone, Copy, PartialEq, Eq, Structural, Hash)]
pub enum Errors {
    Below,
    Above,
    AboveAndBelow,
}

/// Whether any of the three channel states is `state`.
pub open spec fn any_channel(states: [ColorValidationStates; 3], state: ColorValidationStates) -> bool {
    states@[0] == state || states@[1] == state || states@[2] == state
}

/// The verdict on a colour whose three channels lie as `states` say: no error
/// when every channel is in range, otherwise the side or sides that were left.
pub open spec fn channel_verdict(states: [ColorValidationStates; 3]) -> Result<(), Errors> {
    let above = any_channel(states, ColorValidationStates::Above);
    let below = any_channel(states, ColorValidationStates::Below);
    if above && below {
        Err(Errors::AboveAndBelow)
    } else if above {
        Err(Errors::Above)
    } else if below {
        Err(Errors::Below)
    } else {
        Ok(())
    }
}

/// Decides whether a colour whose channels lie as `states` say can be built,
/// and if not, classifies the violation.
pub fn validate_channel_states(states: [ColorValidationStates; 3]) -> (r: Result<(), Errors>)
    ensures
        r == channel_verdict(states),
        r is Ok <==> (forall|i: int| 0 <= i < 3 ==> states@[i] == ColorValidationStates::Valid),
{
    let any_values_above = states[0] == ColorValidationStates::Above
        || states[1] == ColorValidationStates::Above
        || states[2] == ColorValidationStates::Above;
    let any_values_below = states[0] == ColorValidationStates::Below
        || states[1] == ColorValidationStates::Below
        || states[2] == ColorValidationStates::Below;
    if any_values_above && any_values_below {
        return Err(Errors::AboveAndBelow);
    }
    if any_values_above {
        return Err(Errors::Above);
    }
    if any_values_below {
        return Err(Errors::Below);
    }
    Ok(())
}

impl Errors {
    /// The diagnostic text that accompanies each classification.
    pub open spec fn spec_message(self) -> Seq<char> {
        match self {
            Errors::Below => "Some color value or values are below the lowest limit"@,
            Errors::Above => "Some color value or values are above the highest limit"@,
            Errors::AboveAndBelow => "Some color values are above and some are below the valid limit"@,
        }
    }

    pub fn message(&self) -> (r: String)
        ensures
            r@ == self.spec_message(),
    {
        match self {
            Errors::Below => String::from_str("Some color value or values are below the lowest limit"),
            Errors::Above => String::from_str("Some color value or values are above the highest limit"),
            Errors::AboveAndBelow => String::from_str(
                "Some color values are above and some are below the valid limit",
            ),
        }
    }
}

} // verus!
