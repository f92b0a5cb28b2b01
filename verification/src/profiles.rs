use vstd::prelude::*;

use crate::text::str_equal;

verus! {

/// Whether a run is simulated or runs on hardware.
#[derive(Clone, Copy, Debug, PartialEq, Eq, Structural)]
pub enum ExecutionProfile {
    Sitl,
    Hitl,
}

/// The profile a command-line word names, if any.
pub open spec fn profile_named(text: Seq<char>) -> Option<ExecutionProfile> {
    if text == "sitl"@ {
        Some(ExecutionProfile::Sitl)
    } else if text == "hitl"@ {
        Some(ExecutionProfile::Hitl)
    } else {
        None
    }
}

/// The word that names a profile.
pub open spec fn profile_name(profile: ExecutionProfile) -> Seq<char> {
    match profile {
        ExecutionProfile::Sitl => "sitl"@,
        ExecutionProfile::Hitl => "hitl"@,
    }
}

impl ExecutionProfile {
    /// Reads a profile from its name: "sitl" or "hitl".
    pub fn parse(value: &str) -> (profile: Option<Self>)
        ensures
            profile == profile_named(value@),
    {
        if str_equal(value, "sitl") {
            Some(ExecutionProfile::Sitl)
        } else if str_equal(value, "hitl") {
            Some(ExecutionProfile::Hitl)
        } else {
            None
        }
    }

    /// The profile's name.
    pub fn name(self) -> (name: &'static str)
        ensures
            name@ == profile_name(self),
    {
        match self {
            ExecutionProfile::Sitl => "sitl",
            ExecutionProfile::Hitl => "hitl",
        }
    }
}

/// Reading a profile's name gives the profile back.
pub proof fn lemma_profile_name_round_trip(profile: ExecutionProfile)
    ensures
        profile_named(profile_name(profile)) == Some(profile),
{
    reveal_strlit("sitl");
    reveal_strlit("hitl");
    assert("sitl"@[0] != "hitl"@[0]);
}

} // verus!
