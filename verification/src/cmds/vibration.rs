use vstd::prelude::*;
use crate::cmds::command::CommandInfo;

verus! {

/// The console description of the vibration command.
pub fn command_info() -> (r: CommandInfo)
    ensures
        r.name@ == "vibration"@,
        r.requires_iluma == false,
        r.requires_iluma_i == false,
{
    CommandInfo::new(
        "vibration",
        "Configure device vibration settings",
        "Usage: vibration [charge|heating|starting|terminated|puffend] [on|off] ...\nExample: vibration charge on heating on puffend on\nNote: charge option is only available for ILUMA models",
        false,
        false,
    )
}

} // verus!
