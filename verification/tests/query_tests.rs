use pollcore::commands::NewPollPlan;
use pollcore::commands::SlashCommand;
use pollcore::commands::create_new_poll_plan;
use pollcore::commands::do_we_have_to_listen_to_this_guy;
use pollcore::commands::parse_command;
use pollcore::locate::find_last_own_message;
use pollcore::locate::find_suitable_channel;
use pollcore::model::ChannelKind;
use pollcore::model::ChannelRef;
use pollcore::model::NameDirectory;
use pollcore::model::Participant;
use pollcore::model::PollOption;
use pollcore::queries::MemberInfo;
use pollcore::queries::NotVotedLookup;
use pollcore::queries::PollLookup;
use pollcore::queries::mention_all_who_not_voted;
use pollcore::queries::mention_all_who_voted_emoji;
use pollcore::queries::mention_all_who_voted_emoji_not_in_voice;
use pollcore::queries::reacted_ids;

fn p(id: u64, name: &str) -> Participant {
    Participant { id, display_name: name.to_string() }
}

fn empty_dir() -> NameDirectory {
    NameDirectory { entries: vec![] }
}

const BOT: u64 = 1;
const ASKER: u64 = 50;

#[test]
fn voted_query_without_poll_channel() {
    let dir = empty_dir();
    let r = mention_all_who_voted_emoji(PollLookup::NoChannel, &dir, PollOption::Accept, ASKER, BOT);
    assert_eq!(r.response, "Unable to find the poll.");
    assert!(r.log.is_none());
}

#[test]
fn voted_query_without_bot_message() {
    let dir = empty_dir();
    let r = mention_all_who_voted_emoji(PollLookup::NoMessage, &dir, PollOption::Accept, ASKER, BOT);
    assert_eq!(r.response, "Unable to find any members.");
    assert!(r.log.is_none());
}

#[test]
fn voted_query_with_empty_roster() {
    // An emoji with zero reactions reads as an empty ordered roster, and the
    // query answers, it does not fail.
    let dir = empty_dir();
    let r = mention_all_who_voted_emoji(
        PollLookup::Found(vec![]),
        &dir,
        PollOption::Accept,
        ASKER,
        BOT,
    );
    assert_eq!(r.response, "Nobody selected \"\u{2705}\".");
    assert_eq!(
        r.log.as_deref(),
        Some(
            "<@50> requested the list of all members who voted \"\u{2705}\" (0):\n\n",
        )
    );
}

#[test]
fn voted_query_lists_names_and_mentions() {
    let dir = empty_dir();
    let r = mention_all_who_voted_emoji(
        PollLookup::Found(vec![p(BOT, "bot"), p(2, "Alice"), p(3, "Bob")]),
        &dir,
        PollOption::Tentative,
        ASKER,
        BOT,
    );
    assert_eq!(
        r.response,
        "The following members selected \"\u{2754}\" (2):\nAlice\nBob\n```<@2><@3>```"
    );
    assert_eq!(
        r.log.as_deref(),
        Some(
            "<@50> requested the list of all members who voted \"\u{2754}\" (2):\nAlice\nBob\n```<@2><@3>```\n",
        )
    );
}

fn member(id: u64, nick: Option<&str>, name: &str) -> MemberInfo {
    MemberInfo { id, nick: nick.map(|s| s.to_string()), display_name: name.to_string() }
}

#[test]
fn not_voted_query_fallbacks() {
    let r = mention_all_who_not_voted(NotVotedLookup::NoPoll, ASKER, BOT);
    assert_eq!(r.response, "mention_all_who_not_voted()");
    assert!(r.log.is_none());
    let r = mention_all_who_not_voted(NotVotedLookup::NoCachedMembers, ASKER, BOT);
    assert_eq!(r.response, "No cached members found in the channel.");
    assert!(r.log.is_none());
}

#[test]
fn not_voted_query_lists_missing_members() {
    let members = vec![
        member(BOT, None, "bot"),
        member(2, Some("Ally"), "Alice"),
        member(3, None, "Bob"),
        member(4, None, "Carol"),
    ];
    // Alice voted; Bob and Carol did not.
    let a = vec![p(2, "Alice")];
    let reacted = reacted_ids(&a, &vec![], &vec![]);
    assert_eq!(reacted, vec![2]);
    let r = mention_all_who_not_voted(
        NotVotedLookup::Found { members, reacted },
        ASKER,
        BOT,
    );
    assert_eq!(
        r.response,
        "The following members have not voted yet (2/3):\nBob\nCarol\n```<@3><@4>```"
    );
    assert_eq!(
        r.log.as_deref(),
        Some(
            "<@50> requested the list of all members who have not voted yet (2/3):\nBob\nCarol\n```<@3><@4>```\n",
        )
    );
}

#[test]
fn not_voted_query_when_everyone_voted() {
    let members = vec![member(BOT, None, "bot"), member(2, None, "Alice")];
    let reacted = reacted_ids(&vec![p(2, "Alice")], &vec![], &vec![]);
    let r = mention_all_who_not_voted(
        NotVotedLookup::Found { members, reacted },
        ASKER,
        BOT,
    );
    assert_eq!(r.response, "Everyone's voted (0/1) \u{1F44C}");
}

#[test]
fn not_voted_query_without_members() {
    let r = mention_all_who_not_voted(
        NotVotedLookup::Found { members: vec![member(BOT, None, "bot")], reacted: vec![] },
        ASKER,
        BOT,
    );
    assert_eq!(r.response, "Unable to find any members.");
}

#[test]
fn reacted_ids_concatenates_rosters() {
    let a = vec![p(2, "a"), p(3, "b")];
    let d = vec![p(4, "c")];
    let t = vec![p(2, "a")];
    assert_eq!(reacted_ids(&a, &d, &t), vec![2, 3, 4, 2]);
}

#[test]
fn not_in_voice_query_partitions_by_snapshot() {
    let dir = empty_dir();
    let users = vec![p(BOT, "bot"), p(2, "Alice"), p(3, "Bob"), p(4, "Carol")];
    let voice = Some(vec![3]);
    let r = mention_all_who_voted_emoji_not_in_voice(
        PollLookup::Found(users),
        &voice,
        &dir,
        PollOption::Accept,
        ASKER,
        BOT,
    );
    assert_eq!(
        r.response,
        "The following members selected \"\u{2705}\" and are not present in any of the voice channels right now (2/3):\nAlice\nCarol\n```<@2><@4>```"
    );
    assert_eq!(
        r.log.as_deref(),
        Some(
            "<@50> requested the list of all members who voted \"\u{2705}\" but are not in voice (2/3):\nAlice\nCarol\n```<@2><@4>```\nPresent in voice channels right now (1/3):\nBob\n\n",
        )
    );
}

#[test]
fn not_in_voice_query_when_everyone_is_in_voice() {
    let dir = empty_dir();
    let users = vec![p(2, "Alice")];
    let voice = Some(vec![2]);
    let r = mention_all_who_voted_emoji_not_in_voice(
        PollLookup::Found(users),
        &voice,
        &dir,
        PollOption::Accept,
        ASKER,
        BOT,
    );
    assert_eq!(r.response, "Everyone's in voice (1/1) \u{1F44C}");
}

#[test]
fn not_in_voice_query_without_snapshot_counts_nobody_in_voice() {
    let dir = empty_dir();
    let users = vec![p(2, "Alice")];
    let r = mention_all_who_voted_emoji_not_in_voice(
        PollLookup::Found(users),
        &None,
        &dir,
        PollOption::Accept,
        ASKER,
        BOT,
    );
    assert_eq!(
        r.response,
        "The following members selected \"\u{2705}\" and are not present in any of the voice channels right now (1/1):\nAlice\n```<@2>```"
    );
}

#[test]
fn not_in_voice_query_with_empty_roster() {
    let dir = empty_dir();
    let r = mention_all_who_voted_emoji_not_in_voice(
        PollLookup::Found(vec![]),
        &Some(vec![2]),
        &dir,
        PollOption::Decline,
        ASKER,
        BOT,
    );
    assert_eq!(r.response, "Nobody selected \"\u{274C}\".");
}

#[test]
fn suitable_channel_rules() {
    let text = ChannelRef { id: 5, kind: ChannelKind::Text, parent_id: None };
    assert_eq!(find_suitable_channel(&text), Some(5));
    let thr = ChannelRef { id: 6, kind: ChannelKind::PublicThread, parent_id: Some(5) };
    assert_eq!(find_suitable_channel(&thr), Some(5));
    let priv_thr = ChannelRef { id: 7, kind: ChannelKind::PrivateThread, parent_id: Some(5) };
    assert_eq!(find_suitable_channel(&priv_thr), Some(5));
    let orphan = ChannelRef { id: 8, kind: ChannelKind::PrivateThread, parent_id: None };
    assert_eq!(find_suitable_channel(&orphan), None);
    let voice = ChannelRef { id: 9, kind: ChannelKind::Other, parent_id: None };
    assert_eq!(find_suitable_channel(&voice), None);
}

#[test]
fn last_own_message_is_first_in_newest_first_order() {
    let authors = vec![7, 8, 1, 9, 1];
    assert_eq!(find_last_own_message(&authors, 1), Some(2));
    assert_eq!(find_last_own_message(&authors, 4), None);
    assert_eq!(find_last_own_message(&vec![], 1), None);
}

#[test]
fn common_role_gate() {
    assert!(do_we_have_to_listen_to_this_guy(&vec![10, 11], &vec![11, 12]));
    assert!(!do_we_have_to_listen_to_this_guy(&vec![10, 11], &vec![12, 13]));
    assert!(!do_we_have_to_listen_to_this_guy(&vec![], &vec![12]));
}

#[test]
fn command_names_parse() {
    assert_eq!(parse_command(&"new_poll".to_string()), SlashCommand::NewPoll);
    assert_eq!(parse_command(&"get_not_voted".to_string()), SlashCommand::GetNotVoted);
    assert_eq!(parse_command(&"get_tentative".to_string()), SlashCommand::GetTentative);
    assert_eq!(parse_command(&"get_accepted".to_string()), SlashCommand::GetAccepted);
    assert_eq!(parse_command(&"get_not_in_voice".to_string()), SlashCommand::GetNotInVoice);
    assert_eq!(parse_command(&"ping".to_string()), SlashCommand::Unknown);
}

#[test]
fn new_poll_rejected_outside_guild() {
    match create_new_poll_plan(None, ASKER) {
        NewPollPlan::Reject { response } => {
            assert_eq!(response, "Tried to create a poll not in a guild channel. Aborted.");
        },
        NewPollPlan::Proceed { .. } => panic!("must be rejected outside a guild"),
    }
}

#[test]
fn new_poll_rejected_in_non_text_channel() {
    match create_new_poll_plan(Some(ChannelKind::Other), ASKER) {
        NewPollPlan::Reject { response } => {
            assert_eq!(
                response,
                "Tried to create a poll in a channel which is not a text channel. Aborted."
            );
        },
        NewPollPlan::Proceed { .. } => panic!("must be rejected outside a text channel"),
    }
}

#[test]
fn new_poll_plan_in_text_channel() {
    match create_new_poll_plan(Some(ChannelKind::Text), ASKER) {
        NewPollPlan::Proceed { seed_text, log_message, seed_reactions, success } => {
            assert_eq!(seed_text, "Creating new poll...");
            assert_eq!(log_message, "<@50> created a poll.");
            assert_eq!(
                seed_reactions,
                vec![PollOption::Accept, PollOption::Decline, PollOption::Tentative]
            );
            assert_eq!(success, "Successfully created a poll.");
        },
        NewPollPlan::Reject { .. } => panic!("a text channel must proceed"),
    }
}
