//! The command lists of the bot's categories.
use vstd::prelude::*;

verus! {

/// The commands of the utilities category.
#[derive(Clone, Copy, Debug, PartialEq, Eq, Structural)]
pub enum UtilityCommand {
    Ping,
    TranslateContextMenu,
    Translate,
    Compile,
}

/// The utilities category, in the order its commands are registered: ping,
/// the translate context menu, translate, compile.
pub fn commands() -> (v: Vec<UtilityCommand>)
    ensures
        v@ == seq![
            UtilityCommand::Ping,
            UtilityCommand::TranslateContextMenu,
            UtilityCommand::Translate,
            UtilityCommand::Compile,
        ],
{
    let mut v: Vec<UtilityCommand> = Vec::new();
    v.push(UtilityCommand::Ping);
    v.push(UtilityCommand::TranslateContextMenu);
    v.push(UtilityCommand::Translate);
    v.push(UtilityCommand::Compile);
    assert(v@ =~= seq![
        UtilityCommand::Ping,
        UtilityCommand::TranslateContextMenu,
        UtilityCommand::Translate,
        UtilityCommand::Compile,
    ]);
    v
}

} // verus!
