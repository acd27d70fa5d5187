use vstd::prelude::*;
use crate::cmds::command::CommandInfo;

verus! {

/// The console description of the brightness command.
pub fn command_info() -> (r: CommandInfo)
    ensures
        r.name@ == "brightness"@,
        r.requires_iluma == true,
        r.requires_iluma_i == false,
{
    CommandInfo::new(
        "brightness",
        "Configure device brightness level",
        "Usage: brightness [high|low]",
        true,
        false,
    )
}

} // verus!
