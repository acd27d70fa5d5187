use vstd::prelude::*;
use crate::cmds::command::CommandInfo;

verus! {

/// The console description of the smartgesture command.
pub fn command_info() -> (r: CommandInfo)
    ensures
        r.name@ == "smartgesture"@,
        r.requires_iluma == true,
        r.requires_iluma_i == false,
{
    CommandInfo::new(
        "smartgesture",
        "Configure Smart Gesture feature",
        "Usage: smartgesture [enable|disable]",
        true,
        false,
    )
}

} // verus!
