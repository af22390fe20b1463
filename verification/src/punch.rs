//! The two kinds of punch.

use vstd::prelude::*;
use vstd::string::*;

verus! {

/// A clock-in or a clock-out.
#[derive(Clone, Copy, Debug, PartialEq, Eq, Structural)]
pub enum PunchType {
    PunchIn,
    PunchOut,
}

impl PunchType {
    /// The attendance-type code that the service expects for this punch.
    pub open spec fn spec_attendance_code(self) -> u8 {
        match self {
            PunchType::PunchIn => 1,
            PunchType::PunchOut => 2,
        }
    }

    /// The name of this punch as it is shown to the user.
    pub open spec fn label(self) -> Seq<char> {
        match self {
            PunchType::PunchIn => "PunchIn"@,
            PunchType::PunchOut => "PunchOut"@,
        }
    }

    #[verifier::when_used_as_spec(spec_attendance_code)]
    pub fn attendance_code(self) -> (code: u8)
        ensures
            code == self.spec_attendance_code(),
    {
        match self {
            PunchType::PunchIn => 1,
            PunchType::PunchOut => 2,
        }
    }

    /// Renders the punch by its name.
    pub fn to_string(&self) -> (text: String)
        ensures
            text@ == self.label(),
    {
        match self {
            PunchType::PunchIn => String::from_str("PunchIn"),
            PunchType::PunchOut => String::from_str("PunchOut"),
        }
    }
}

} // verus!
