//! The command line: `<token> create <label>` or
//! `<token> ownership <guild-id> <user-id>`.
use vstd::prelude::*;

verus! {

/// What the command line asks for.
#[derive(Debug)]
pub enum Command {
    /// Search for a guild whose bucket falls in the target range.
    Create { token: String, label: String },
    /// Hand a guild over to another account.
    Ownership { token: String, guild_id: String, user_id: String },
}

/// A command as the contracts see it.
pub enum CommandView {
    Create { token: Seq<char>, label: Seq<char> },
    Ownership { token: Seq<char>, guild_id: Seq<char>, user_id: Seq<char> },
}

impl View for Command {
    type V = CommandView;

    open spec fn view(&self) -> CommandView {
        match self {
            Command::Create { token, label } => CommandView::Create { token: token@, label: label@ },
            Command::Ownership { token, guild_id, user_id } => CommandView::Ownership {
                token: token@,
                guild_id: guild_id@,
                user_id: user_id@,
            },
        }
    }
}

/// The command that an argument list (program name first) asks for, or
/// nothing when it is not a valid invocation and the usage is to be shown.
pub open spec fn command_of(args: Seq<Seq<char>>) -> Option<CommandView> {
    if args.len() == 4 && args[2] == "create"@ {
        Some(CommandView::Create { token: args[1], label: args[3] })
    } else if args.len() == 5 && args[2] == "ownership"@ {
        Some(CommandView::Ownership { token: args[1], guild_id: args[3], user_id: args[4] })
    } else {
        None
    }
}

/// Reads the command from the process arguments, program name first.
/// `None` means the invocation is malformed: wrong count, unknown
/// subcommand, or no arguments at all.
pub fn parse_command(args: &Vec<String>) -> (r: Option<Command>)
    ensures
        match r {
            Some(c) => command_of(args@.map_values(|s: String| s@)) == Some(c@),
            None => command_of(args@.map_values(|s: String| s@)) is None,
        },
{
    let ghost v = args@.map_values(|s: String| s@);
    let create = "create".to_owned();
    let ownership = "ownership".to_owned();
    if args.len() == 4 && args[2] == create {
        Some(Command::Create { token: args[1].clone(), label: args[3].clone() })
    } else if args.len() == 5 && args[2] == ownership {
        Some(
            Command::Ownership {
                token: args[1].clone(),
                guild_id: args[3].clone(),
                user_id: args[4].clone(),
            },
        )
    } else {
        assert(command_of(v) is None);
        None
    }
}

} // verus!
