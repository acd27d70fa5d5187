use vstd::prelude::*;
use crate::cmds::command::CommandInfo;

verus! {

/// The console description of the autostart command.
pub fn command_info() -> (r: CommandInfo)
    ensures
        r.name@ == "autostart"@,
        r.requires_iluma == true,
        r.requires_iluma_i == false,
{
    CommandInfo::new(
        "autostart",
        "Configure autostart feature",
        "Usage: autostart [on|off]",
        true,
        false,
    )
}

} // verus!
