use vstd::prelude::*;
use crate::cmds::command::CommandInfo;

verus! {

/// The console description of the flexpuff command.
pub fn command_info() -> (r: CommandInfo)
    ensures
        r.name@ == "flexpuff"@,
        r.requires_iluma == true,
        r.requires_iluma_i == false,
{
    CommandInfo::new(
        "flexpuff",
        "Configure FlexPuff feature",
        "Usage: flexpuff [status|enable|disable]",
        true,
        false,
    )
}

} // verus!
