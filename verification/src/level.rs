//! The two-valued logic level carried by every pin.

use vstd::prelude::*;
use vstd::string::*;

verus! {

/// The logical state of a digital line.
#[derive(Clone, Copy, Debug, PartialEq, Eq, Structural)]
pub enum Level {
    Low,
    High,
}

impl Level {
    /// The other level.
    pub open spec fn spec_toggled(self) -> Level {
        match self {
            Level::Low => Level::High,
            Level::High => Level::Low,
        }
    }

    /// The text under which the level appears in a log line.
    pub open spec fn spec_name(self) -> Seq<char> {
        match self {
            Level::Low => "Low"@,
            Level::High => "High"@,
        }
    }

    /// The other level: `Low` for `High` and `High` for `Low`.
    #[verifier::when_used_as_spec(spec_toggled)]
    pub fn toggled(self) -> (other: Level)
        ensures
            other == self.spec_toggled(),
    {
        match self {
            Level::Low => Level::High,
            Level::High => Level::Low,
        }
    }

    /// The level of a line that is low or is not.
    pub fn from_is_low(low: bool) -> (level: Level)
        ensures
            level == if low {
                Level::Low
            } else {
                Level::High
            },
    {
        if low {
            Level::Low
        } else {
            Level::High
        }
    }

    /// Whether the level is `Low`.
    pub fn is_low(self) -> (low: bool)
        ensures
            low == (self == Level::Low),
    {
        match self {
            Level::Low => true,
            Level::High => false,
        }
    }

    /// The level's name, `"Low"` or `"High"`.
    pub fn name(self) -> (text: String)
        ensures
            text@ == self.spec_name(),
    {
        match self {
            Level::Low => String::from_str("Low"),
            Level::High => String::from_str("High"),
        }
    }
}

/// Toggling twice gives the level back, and toggling once never does.
pub proof fn lemma_toggle_involution(level: Level)
    ensures
        level.spec_toggled().spec_toggled() == level,
        level.spec_toggled() != level,
{
}

} // verus!
