use vstd::prelude::*;

verus! {

/// ProfanityOption defines the profanity option.
#[derive(Debug, Clone, Copy, PartialEq, Eq, Structural)]
pub enum ProfanityOption {
    /// Masked profanity option.
    Masked,
    /// Removed profanity option.
    Removed,
    /// Raw profanity option.
    Raw,
}

impl ProfanityOption {
    /// The numeric value the native engine uses for this option.
    pub open spec fn spec_value(self) -> u32 {
        match self {
            ProfanityOption::Masked => 0,
            ProfanityOption::Removed => 1,
            ProfanityOption::Raw => 2,
        }
    }

    /// Converts the option to the signed integer the native layer expects.
    pub fn to_i32(self) -> (r: i32)
        ensures
            r == self.spec_value() as i32,
    {
        match self {
            ProfanityOption::Masked => 0,
            ProfanityOption::Removed => 1,
            ProfanityOption::Raw => 2,
        }
    }

    /// Converts the option to the unsigned integer the native layer expects.
    pub fn to_u32(self) -> (r: u32)
        ensures
            r == self.spec_value(),
    {
        match self {
            ProfanityOption::Masked => 0,
            ProfanityOption::Removed => 1,
            ProfanityOption::Raw => 2,
        }
    }
}

impl From<ProfanityOption> for i32 {
    fn from(profanity_option: ProfanityOption) -> (r: i32) {
        profanity_option.to_i32()
    }
}

impl vstd::std_specs::convert::FromSpecImpl<ProfanityOption> for i32 {
    open spec fn obeys_from_spec() -> bool {
        true
    }

    open spec fn from_spec(v: ProfanityOption) -> i32 {
        v.spec_value() as i32
    }
}

impl From<ProfanityOption> for u32 {
    fn from(profanity_option: ProfanityOption) -> (r: u32) {
        profanity_option.to_u32()
    }
}

impl vstd::std_specs::convert::FromSpecImpl<ProfanityOption> for u32 {
    open spec fn obeys_from_spec() -> bool {
        true
    }

    open spec fn from_spec(v: ProfanityOption) -> u32 {
        v.spec_value()
    }
}

} // verus!
