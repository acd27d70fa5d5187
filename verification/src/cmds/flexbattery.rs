use vstd::prelude::*;
use crate::cmds::command::CommandInfo;

verus! {

/// The console description of the flexbattery command.
pub fn command_info() -> (r: CommandInfo)
    ensures
        r.name@ == "flexbattery"@,
        r.requires_iluma == true,
        r.requires_iluma_i == true,
{
    CommandInfo::new(
        "flexbattery",
        "Configure FlexBattery feature",
        "Usage: flexbattery [performance|eco] | pause [on|off]",
        true,
        true,
    )
}

} // verus!
