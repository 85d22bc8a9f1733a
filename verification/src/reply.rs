use crate::text::{nat_decimal, push_decimal};
use vstd::prelude::*;
use vstd::string::*;

verus! {

/// The ways a command can fail, as the command framework reports them.
#[derive(Debug, Clone, Copy, PartialEq, Eq, Structural)]
pub enum Failure {
    Setup,
    Command,
    CommandCheckFailed,
    ArgumentParse,
    EventHandler,
    CommandPanic,
    CommandStructureMismatch,
    /// The command is cooling down for this many more seconds.
    CooldownHit(u64),
    MissingBotPermissions,
    MissingUserPermissions,
    NotAnOwner,
    GuildOnly,
    DmOnly,
    NsfwOnly,
    DynamicPrefix,
    UnknownCommand,
    UnknownInteraction,
    Other,
}

/// What the user is told of a failure; nothing where the failure is only logged.
pub open spec fn failure_reply(f: Failure) -> Option<Seq<char>> {
    match f {
        Failure::CommandPanic => Some(
            "The command has failed, please contact the bot operators if the issue persists."@,
        ),
        Failure::CooldownHit(secs) => Some(
            "This command is still on cooldown. Try again in "@ + nat_decimal(secs as nat)
                + " seconds"@,
        ),
        Failure::MissingBotPermissions => Some(
            "I do not have the required permissions to do this, sorry :("@,
        ),
        Failure::MissingUserPermissions => Some(
            "You do not have the required permissions to do this, sorry :("@,
        ),
        Failure::NotAnOwner => Some("This command is only available to the bot owners."@),
        Failure::GuildOnly => Some("This command is only available in a Discord server."@),
        Failure::DmOnly => Some("This command is only available in a DM."@),
        Failure::NsfwOnly => Some("This command is only available in a NSFW channel."@),
        _ => None,
    }
}

/// Whether the failure stops the bot: one while setting it up.
pub open spec fn failure_is_fatal(f: Failure) -> bool {
    f is Setup
}

/// The reply to the user for a failure (see `failure_reply`).
pub fn error_reply(f: Failure) -> (r: Option<String>)
    ensures
        match r {
            Some(s) => failure_reply(f) == Some(s@),
            None => failure_reply(f) is None,
        },
{
    match f {
        Failure::CommandPanic => Some(
            String::from_str(
                "The command has failed, please contact the bot operators if the issue persists.",
            ),
        ),
        Failure::CooldownHit(secs) => {
            let mut s = String::from_str("This command is still on cooldown. Try again in ");
            push_decimal(&mut s, secs);
            s.append(" seconds");
            Some(s)
        },
        Failure::MissingBotPermissions => Some(
            String::from_str("I do not have the required permissions to do this, sorry :("),
        ),
        Failure::MissingUserPermissions => Some(
            String::from_str("You do not have the required permissions to do this, sorry :("),
        ),
        Failure::NotAnOwner => Some(
            String::from_str("This command is only available to the bot owners."),
        ),
        Failure::GuildOnly => Some(
            String::from_str("This command is only available in a Discord server."),
        ),
        Failure::DmOnly => Some(String::from_str("This command is only available in a DM.")),
        Failure::NsfwOnly => Some(
            String::from_str("This command is only available in a NSFW channel."),
        ),
        _ => None,
    }
}

/// Whether the failure stops the bot (see `failure_is_fatal`).
pub fn is_fatal(f: Failure) -> (r: bool)
    ensures
        r == failure_is_fatal(f),
{
    match f {
        Failure::Setup => true,
        _ => false,
    }
}

} // verus!
