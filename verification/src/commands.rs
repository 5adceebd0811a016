//! The command-shell decisions: which slash command a name means, whether a
//! requester shares a role with the bot, and what creating a new poll takes.

use vstd::prelude::*;

use crate::markup::spec_mention;
use crate::markup::user_mention;
use crate::model::ChannelKind;
use crate::model::PollOption;

verus! {

/// The slash commands the shell dispatches.
#[derive(Clone, Copy, PartialEq, Eq, Structural, Debug)]
pub enum SlashCommand {
    NewPoll,
    GetNotVoted,
    GetTentative,
    GetAccepted,
    GetNotInVoice,
    Unknown,
}

/// Which command a name means; anything unrecognized is `Unknown`.
pub open spec fn spec_parse_command(name: Seq<char>) -> SlashCommand {
    if name == "new_poll"@ {
        SlashCommand::NewPoll
    } else if name == "get_not_voted"@ {
        SlashCommand::GetNotVoted
    } else if name == "get_tentative"@ {
        SlashCommand::GetTentative
    } else if name == "get_accepted"@ {
        SlashCommand::GetAccepted
    } else if name == "get_not_in_voice"@ {
        SlashCommand::GetNotInVoice
    } else {
        SlashCommand::Unknown
    }
}

/// Parses a slash command's name.
pub fn parse_command(name: &String) -> (r: SlashCommand)
    ensures
        r == spec_parse_command(name@),
{
    if *name == String::from_str("new_poll") {
        SlashCommand::NewPoll
    } else if *name == String::from_str("get_not_voted") {
        SlashCommand::GetNotVoted
    } else if *name == String::from_str("get_tentative") {
        SlashCommand::GetTentative
    } else if *name == String::from_str("get_accepted") {
        SlashCommand::GetAccepted
    } else if *name == String::from_str("get_not_in_voice") {
        SlashCommand::GetNotInVoice
    } else {
        SlashCommand::Unknown
    }
}

/// Whether the requester shares at least one role with the bot: only then is
/// a command listened to.
pub fn do_we_have_to_listen_to_this_guy(member_roles: &Vec<u64>, own_roles: &Vec<u64>) -> (r: bool)
    ensures
        r == exists|i: int|
            0 <= i < member_roles@.len() && own_roles@.contains(member_roles@[i]),
{
    let n = member_roles.len();
    let mut i: usize = 0;
    while i < n
        invariant
            i <= n,
            n == member_roles@.len(),
            forall|k: int| 0 <= k < i ==> !own_roles@.contains(member_roles@[k]),
        decreases n - i,
    {
        if crate::model::contains_id(own_roles, member_roles[i]) {
            return true;
        }
        i += 1;
    }
    false
}

/// What creating a new poll takes, once the hosting channel's kind is known.
pub enum NewPollPlan {
    /// The command is answered with this text and nothing happens.
    Reject { response: String },
    /// Post `seed_text` as the poll message, append `log_message` to the
    /// audit thread, seed the reactions in order, answer with `success`.
    Proceed {
        seed_text: String,
        log_message: String,
        seed_reactions: Vec<PollOption>,
        success: String,
    },
}

/// Decides a new-poll command: rejected outside a guild text channel, and
/// otherwise a plan that seeds the message, the audit line naming the
/// requester, and the three tracked reactions in fixed order.
pub fn create_new_poll_plan(channel_kind: Option<ChannelKind>, requester_id: u64) -> (r:
    NewPollPlan)
    requires
        requester_id != 0,
    ensures
        match channel_kind {
            None => r matches NewPollPlan::Reject { response } && response@
                == "Tried to create a poll not in a guild channel. Aborted."@,
            Some(k) => if k != ChannelKind::Text {
                r matches NewPollPlan::Reject { response } && response@
                    == "Tried to create a poll in a channel which is not a text channel. Aborted."@
            } else {
                r matches NewPollPlan::Proceed {
                    seed_text,
                    log_message,
                    seed_reactions,
                    success,
                } && seed_text@ == "Creating new poll..."@ && log_message@ == spec_mention(
                    requester_id,
                ) + " created a poll."@ && seed_reactions@ == seq![
                    PollOption::Accept,
                    PollOption::Decline,
                    PollOption::Tentative,
                ] && success@ == "Successfully created a poll."@
            },
        },
{
    match channel_kind {
        None => NewPollPlan::Reject {
            response: String::from_str("Tried to create a poll not in a guild channel. Aborted."),
        },
        Some(k) => {
            if k != ChannelKind::Text {
                NewPollPlan::Reject {
                    response: String::from_str(
                        "Tried to create a poll in a channel which is not a text channel. Aborted.",
                    ),
                }
            } else {
                let mut seed_reactions: Vec<PollOption> = Vec::new();
                seed_reactions.push(PollOption::Accept);
                seed_reactions.push(PollOption::Decline);
                seed_reactions.push(PollOption::Tentative);
                proof {
                    assert(seed_reactions@ =~= seq![
                        PollOption::Accept,
                        PollOption::Decline,
                        PollOption::Tentative,
                    ]);
                }
                NewPollPlan::Proceed {
                    seed_text: String::from_str("Creating new poll..."),
                    log_message: user_mention(requester_id).concat(" created a poll."),
                    seed_reactions,
                    success: String::from_str("Successfully created a poll."),
                }
            }
        },
    }
}

} // verus!
