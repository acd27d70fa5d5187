use vstd::prelude::*;

verus! {

/// Static description of one console command: its name, help text, usage
/// line, and the device tiers it needs.
pub struct CommandInfo {
    pub name: &'static str,
    pub description: &'static str,
    pub usage: &'static str,
    pub requires_iluma: bool,
    pub requires_iluma_i: bool,
}

impl CommandInfo {
    pub fn new(
        name: &'static str,
        description: &'static str,
        usage: &'static str,
        requires_iluma: bool,
        requires_iluma_i: bool,
    ) -> (r: Self)
        ensures
            r.name@ == name@,
            r.description@ == description@,
            r.usage@ == usage@,
            r.requires_iluma == requires_iluma,
            r.requires_iluma_i == requires_iluma_i,
    {
        Self { name, description, usage, requires_iluma, requires_iluma_i }
    }

    /// Builds a description from the older four-field form, which could not
    /// yet name the ILUMA-i tier.
    pub fn from_tuple(info: (&'static str, &'static str, &'static str, bool)) -> (r: Self)
        ensures
            r.name@ == info.0@,
            r.description@ == info.1@,
            r.usage@ == info.2@,
            r.requires_iluma == info.3,
            !r.requires_iluma_i,
    {
        let (name, description, usage, requires_iluma) = info;
        Self { name, description, usage, requires_iluma, requires_iluma_i: false }
    }
}

} // verus!
