//! The read-only query reports: who voted an option, who has not voted, and
//! who voted but is not in voice.  Each takes the values the caller looked up
//! — the poll's reaction roster, the channel members, the voice snapshot —
//! and returns the textual response together with the audit line to append.
//! None of them mutates poll state.

use vstd::prelude::*;

use crate::digits::dec_str;
use crate::digits::u64_to_dec;
use crate::markup::inline_normalized;
use crate::markup::safe_content;
use crate::markup::spec_mention;
use crate::markup::user_mention;
use crate::model::NameDirectory;
use crate::model::NickEntry;
use crate::model::Participant;
use crate::model::PollOption;
use crate::model::contains_id;
use crate::model::nonzero_ids;
use crate::model::option_glyph;
use crate::model::spec_glyph;
use crate::render::spec_name_lines;
use crate::render::spec_visible_count;
use crate::resolve::resolve;
use crate::resolve::spec_resolved;

verus! {

/// How far the caller got in locating the poll for a query: no suitable
/// channel, no bot-authored message in it, or the reaction roster it read.
pub enum PollLookup {
    NoChannel,
    NoMessage,
    Found(Vec<Participant>),
}

/// A query's result: the response shown to the requester, and the audit line
/// to append where a poll was found.
pub struct QueryReply {
    pub response: String,
    pub log: Option<String>,
}

/// The mentions of a roster's participants, in roster order, skipping
/// `self_id`.
pub open spec fn spec_mention_block(s: Seq<Participant>, self_id: u64) -> Seq<char>
    decreases s.len(),
{
    if s.len() == 0 {
        Seq::empty()
    } else if s[0].id == self_id {
        spec_mention_block(s.drop_first(), self_id)
    } else {
        spec_mention(s[0].id) + spec_mention_block(s.drop_first(), self_id)
    }
}

/// Walks one roster and produces its name lines, its mention block and its
/// visible count.
fn roster_lines(users: &Vec<Participant>, dir: &NameDirectory, self_id: u64) -> (r: (
    String,
    String,
    u64,
))
    requires
        nonzero_ids(users@),
    ensures
        r.0@ == spec_name_lines(users@, dir@, self_id),
        r.1@ == spec_mention_block(users@, self_id),
        r.2 as nat == spec_visible_count(users@, self_id),
{
    let n = users.len();
    let mut i: usize = 0;
    let mut names = String::new();
    let mut mentions = String::new();
    let mut cnt: u64 = 0;
    proof {
        assert(users@.skip(0) =~= users@);
    }
    while i < n
        invariant
            i <= n,
            n == users@.len(),
            nonzero_ids(users@),
            cnt <= i,
            cnt as nat + spec_visible_count(users@.skip(i as int), self_id) == spec_visible_count(
                users@,
                self_id,
            ),
            names@ + spec_name_lines(users@.skip(i as int), dir@, self_id) == spec_name_lines(
                users@,
                dir@,
                self_id,
            ),
            mentions@ + spec_mention_block(users@.skip(i as int), self_id) == spec_mention_block(
                users@,
                self_id,
            ),
        decreases n - i,
    {
        proof {
            assert(users@.skip(i as int)[0] == users@[i as int]);
            assert(users@.skip(i as int).drop_first() =~= users@.skip(i as int + 1));
            reveal_strlit("\n");
            assert("\n"@ =~= seq!['\n']);
        }
        if users[i].id != self_id {
            let line = resolve(dir, &users[i]);
            names.append(line.as_str());
            names.append("\n");
            let m = user_mention(users[i].id);
            mentions.append(m.as_str());
            cnt = cnt + 1;
        }
        i += 1;
    }
    proof {
        assert(users@.skip(n as int) =~= Seq::<Participant>::empty());
        assert(names@ + Seq::<char>::empty() =~= names@);
        assert(mentions@ + Seq::<char>::empty() =~= mentions@);
    }
    (names, mentions, cnt)
}

/// The response of the who-voted query on a found roster.
pub open spec fn spec_voted_response(
    users: Seq<Participant>,
    dir: Seq<NickEntry>,
    react: PollOption,
    self_id: u64,
) -> Seq<char> {
    let cnt = spec_visible_count(users, self_id);
    if cnt == 0 {
        "Nobody selected \""@ + spec_glyph(react) + "\"."@
    } else {
        "The following members selected \""@ + spec_glyph(react) + "\" ("@ + dec_str(cnt)
            + "):\n"@ + spec_name_lines(users, dir, self_id) + "```"@ + spec_mention_block(
            users,
            self_id,
        ) + "```"@
    }
}

/// The audit line of the who-voted query on a found roster.
pub open spec fn spec_voted_log(
    users: Seq<Participant>,
    dir: Seq<NickEntry>,
    react: PollOption,
    requester_id: u64,
    self_id: u64,
) -> Seq<char> {
    let cnt = spec_visible_count(users, self_id);
    spec_mention(requester_id) + inline_normalized(
        " requested the list of all members who voted \""@ + spec_glyph(react) + "\" ("@ + dec_str(
            cnt,
        ) + "):"@,
    ) + seq!['\n'] + (if cnt == 0 {
        Seq::empty()
    } else {
        spec_name_lines(users, dir, self_id) + "```"@ + spec_mention_block(users, self_id)
            + "```"@
    }) + seq!['\n']
}

/// Reports who voted `react` on the poll: the listing with names and
/// mentions, or that nobody selected it; a fixed notice where the poll or
/// the bot's message was not found, with no audit line.
pub fn mention_all_who_voted_emoji(
    lookup: PollLookup,
    dir: &NameDirectory,
    react: PollOption,
    requester_id: u64,
    self_id: u64,
) -> (r: QueryReply)
    requires
        requester_id != 0,
        lookup matches PollLookup::Found(users) ==> nonzero_ids(users@),
    ensures
        match lookup {
            PollLookup::NoChannel => r.response@ == "Unable to find the poll."@ && r.log is None,
            PollLookup::NoMessage => r.response@ == "Unable to find any members."@ && r.log
                is None,
            PollLookup::Found(users) => r.response@ == spec_voted_response(
                users@,
                dir@,
                react,
                self_id,
            ) && (r.log matches Some(lg) && lg@ == spec_voted_log(
                users@,
                dir@,
                react,
                requester_id,
                self_id,
            )),
        },
{
    match lookup {
        PollLookup::NoChannel => QueryReply {
            response: String::from_str("Unable to find the poll."),
            log: None,
        },
        PollLookup::NoMessage => QueryReply {
            response: String::from_str("Unable to find any members."),
            log: None,
        },
        PollLookup::Found(users) => {
            let (names, mentions, cnt) = roster_lines(&users, dir, self_id);
            let glyph = option_glyph(react);
            let listing = if cnt == 0 {
                String::new()
            } else {
                let l = names.clone().concat("```").concat(mentions.as_str()).concat("```");
                proof {
                    assert(l@ =~= spec_name_lines(users@, dir@, self_id) + "```"@
                        + spec_mention_block(users@, self_id) + "```"@);
                }
                l
            };
            let response = if cnt == 0 {
                let rp = String::from_str("Nobody selected \"").concat(glyph).concat("\".");
                proof {
                    assert(rp@ =~= spec_voted_response(users@, dir@, react, self_id));
                }
                rp
            } else {
                let rp = String::from_str("The following members selected \"").concat(
                    glyph,
                ).concat("\" (").concat(u64_to_dec(cnt).as_str()).concat("):\n").concat(
                    listing.as_str(),
                );
                proof {
                    assert(rp@ =~= spec_voted_response(users@, dir@, react, self_id));
                }
                rp
            };
            let asked = String::from_str(" requested the list of all members who voted \"").concat(
                glyph,
            ).concat("\" (").concat(u64_to_dec(cnt).as_str()).concat("):");
            proof {
                assert(asked@ =~= " requested the list of all members who voted \""@ + spec_glyph(
                    react,
                ) + "\" ("@ + dec_str(cnt as nat) + "):"@);
            }
            let log = user_mention(requester_id).concat(safe_content(asked.as_str()).as_str())
                .concat("\n").concat(listing.as_str()).concat("\n");
            proof {
                reveal_strlit("\n");
                assert("\n"@ =~= seq!['\n']);
                assert(log@ =~= spec_voted_log(users@, dir@, react, requester_id, self_id));
            }
            QueryReply { response, log: Some(log) }
        },
    }
}

/// A channel member as the caller's cache lists them: id, the guild nickname
/// where one is set, and the global display name.
pub struct MemberInfo {
    pub id: u64,
    pub nick: Option<String>,
    pub display_name: String,
}

/// Member ids are never zero on the platform.
pub open spec fn nonzero_member_ids(s: Seq<MemberInfo>) -> bool {
    forall|i: int| 0 <= i < s.len() ==> s[i].id != 0
}

/// The name a member is listed under: their own nickname, else their display
/// name.
pub open spec fn member_raw_name(m: MemberInfo) -> Seq<char> {
    match m.nick {
        Some(n) => n@,
        None => m.display_name@,
    }
}

/// The ids that hold any of the three tracked reactions, one roster after
/// the other.
pub fn reacted_ids(a: &Vec<Participant>, d: &Vec<Participant>, t: &Vec<Participant>) -> (r: Vec<
    u64,
>)
    ensures
        r@ == crate::model::ids_of(a@) + crate::model::ids_of(d@) + crate::model::ids_of(t@),
{
    let mut r: Vec<u64> = Vec::new();
    push_ids(&mut r, a);
    push_ids(&mut r, d);
    push_ids(&mut r, t);
    r
}

/// Appends one roster's ids in order.
fn push_ids(r: &mut Vec<u64>, s: &Vec<Participant>)
    ensures
        final(r)@ == old(r)@ + crate::model::ids_of(s@),
{
    let n = s.len();
    let mut i: usize = 0;
    while i < n
        invariant
            i <= n,
            n == s@.len(),
            r@ == old(r)@ + crate::model::ids_of(s@).subrange(0, i as int),
        decreases n - i,
    {
        r.push(s[i].id);
        proof {
            assert(crate::model::ids_of(s@).subrange(0, i + 1) =~= crate::model::ids_of(
                s@,
            ).subrange(0, i as int) + seq![s@[i as int].id]);
            assert(r@ =~= old(r)@ + crate::model::ids_of(s@).subrange(0, i + 1));
        }
        i += 1;
    }
    proof {
        assert(crate::model::ids_of(s@).subrange(0, n as int) =~= crate::model::ids_of(s@));
    }
}

/// Whether a member still owes a vote: not the bot, and under none of the
/// tracked reactions.
pub open spec fn not_voted_hit(m: MemberInfo, reacted: Seq<u64>, self_id: u64) -> bool {
    m.id != self_id && !reacted.contains(m.id)
}

/// How many listed members are not the bot.
pub open spec fn spec_member_count(members: Seq<MemberInfo>, self_id: u64) -> nat
    decreases members.len(),
{
    if members.len() == 0 {
        0
    } else {
        (if members[0].id == self_id {
            0nat
        } else {
            1nat
        }) + spec_member_count(members.drop_first(), self_id)
    }
}

/// How many members have not voted.
pub open spec fn spec_not_voted_count(
    members: Seq<MemberInfo>,
    reacted: Seq<u64>,
    self_id: u64,
) -> nat
    decreases members.len(),
{
    if members.len() == 0 {
        0
    } else {
        (if not_voted_hit(members[0], reacted, self_id) {
            1nat
        } else {
            0nat
        }) + spec_not_voted_count(members.drop_first(), reacted, self_id)
    }
}

/// The name lines of the members who have not voted, in member order.
pub open spec fn spec_not_voted_names(
    members: Seq<MemberInfo>,
    reacted: Seq<u64>,
    self_id: u64,
) -> Seq<char>
    decreases members.len(),
{
    if members.len() == 0 {
        Seq::empty()
    } else if not_voted_hit(members[0], reacted, self_id) {
        inline_normalized(member_raw_name(members[0])) + seq!['\n'] + spec_not_voted_names(
            members.drop_first(),
            reacted,
            self_id,
        )
    } else {
        spec_not_voted_names(members.drop_first(), reacted, self_id)
    }
}

/// The mentions of the members who have not voted, in member order.
pub open spec fn spec_not_voted_mentions(
    members: Seq<MemberInfo>,
    reacted: Seq<u64>,
    self_id: u64,
) -> Seq<char>
    decreases members.len(),
{
    if members.len() == 0 {
        Seq::empty()
    } else if not_voted_hit(members[0], reacted, self_id) {
        spec_mention(members[0].id) + spec_not_voted_mentions(
            members.drop_first(),
            reacted,
            self_id,
        )
    } else {
        spec_not_voted_mentions(members.drop_first(), reacted, self_id)
    }
}

/// The response of the who-has-not-voted query on a found member list.
pub open spec fn spec_not_voted_response(
    members: Seq<MemberInfo>,
    reacted: Seq<u64>,
    self_id: u64,
) -> Seq<char> {
    let cnt_nv = spec_not_voted_count(members, reacted, self_id);
    let cnt = spec_member_count(members, self_id);
    if cnt_nv > 0 {
        "The following members have not voted yet ("@ + dec_str(cnt_nv) + "/"@ + dec_str(cnt)
            + "):\n"@ + spec_not_voted_names(members, reacted, self_id) + "```"@
            + spec_not_voted_mentions(members, reacted, self_id) + "```"@
    } else if cnt > 0 {
        "Everyone's voted ("@ + dec_str(cnt_nv) + "/"@ + dec_str(cnt) + ") \u{1F44C}"@
    } else {
        "Unable to find any members."@
    }
}

/// The audit line of the who-has-not-voted query on a found member list.
pub open spec fn spec_not_voted_log(
    members: Seq<MemberInfo>,
    reacted: Seq<u64>,
    requester_id: u64,
    self_id: u64,
) -> Seq<char> {
    let cnt_nv = spec_not_voted_count(members, reacted, self_id);
    let cnt = spec_member_count(members, self_id);
    spec_mention(requester_id) + inline_normalized(
        " requested the list of all members who have not voted yet ("@ + dec_str(cnt_nv) + "/"@
            + dec_str(cnt) + "):"@,
    ) + seq!['\n'] + (if cnt_nv == 0 {
        Seq::empty()
    } else {
        spec_not_voted_names(members, reacted, self_id) + "```"@ + spec_not_voted_mentions(
            members,
            reacted,
            self_id,
        ) + "```"@
    }) + seq!['\n']
}

/// How far the caller got in gathering what the who-has-not-voted query
/// needs: no poll, no cached member list, or the members together with the
/// ids that hold any tracked reaction.
pub enum NotVotedLookup {
    NoPoll,
    NoCachedMembers,
    Found { members: Vec<MemberInfo>, reacted: Vec<u64> },
}

/// Reports which channel members have not voted on the poll, comparing the
/// cached member list against the ids under the three tracked reactions.
pub fn mention_all_who_not_voted(lookup: NotVotedLookup, requester_id: u64, self_id: u64) -> (r:
    QueryReply)
    requires
        requester_id != 0,
        lookup matches NotVotedLookup::Found { members, .. } ==> nonzero_member_ids(members@),
    ensures
        match lookup {
            NotVotedLookup::NoPoll => r.response@ == "mention_all_who_not_voted()"@ && r.log
                is None,
            NotVotedLookup::NoCachedMembers => r.response@
                == "No cached members found in the channel."@ && r.log is None,
            NotVotedLookup::Found { members, reacted } => r.response@ == spec_not_voted_response(
                members@,
                reacted@,
                self_id,
            ) && (r.log matches Some(lg) && lg@ == spec_not_voted_log(
                members@,
                reacted@,
                requester_id,
                self_id,
            )),
        },
{
    match lookup {
        NotVotedLookup::NoPoll => QueryReply {
            response: String::from_str("mention_all_who_not_voted()"),
            log: None,
        },
        NotVotedLookup::NoCachedMembers => QueryReply {
            response: String::from_str("No cached members found in the channel."),
            log: None,
        },
        NotVotedLookup::Found { members, reacted } => {
            let n = members.len();
            let mut i: usize = 0;
            let mut names = String::new();
            let mut mentions = String::new();
            let mut cnt_nv: u64 = 0;
            let mut cnt: u64 = 0;
            proof {
                assert(members@.skip(0) =~= members@);
            }
            while i < n
                invariant
                    i <= n,
                    n == members@.len(),
                    nonzero_member_ids(members@),
                    cnt_nv <= i,
                    cnt <= i,
                    cnt_nv as nat + spec_not_voted_count(
                        members@.skip(i as int),
                        reacted@,
                        self_id,
                    ) == spec_not_voted_count(members@, reacted@, self_id),
                    cnt as nat + spec_member_count(members@.skip(i as int), self_id)
                        == spec_member_count(members@, self_id),
                    names@ + spec_not_voted_names(members@.skip(i as int), reacted@, self_id)
                        == spec_not_voted_names(members@, reacted@, self_id),
                    mentions@ + spec_not_voted_mentions(
                        members@.skip(i as int),
                        reacted@,
                        self_id,
                    ) == spec_not_voted_mentions(members@, reacted@, self_id),
                decreases n - i,
            {
                proof {
                    assert(members@.skip(i as int)[0] == members@[i as int]);
                    assert(members@.skip(i as int).drop_first() =~= members@.skip(i as int + 1));
                    reveal_strlit("\n");
                    assert("\n"@ =~= seq!['\n']);
                }
                if members[i].id != self_id {
                    if !contains_id(&reacted, members[i].id) {
                        let raw = match &members[i].nick {
                            Some(nk) => safe_content(nk.as_str()),
                            None => safe_content(members[i].display_name.as_str()),
                        };
                        names.append(raw.as_str());
                        names.append("\n");
                        let m = user_mention(members[i].id);
                        mentions.append(m.as_str());
                        cnt_nv = cnt_nv + 1;
                    }
                    cnt = cnt + 1;
                }
                i += 1;
            }
            proof {
                assert(members@.skip(n as int) =~= Seq::<MemberInfo>::empty());
                assert(names@ + Seq::<char>::empty() =~= names@);
                assert(mentions@ + Seq::<char>::empty() =~= mentions@);
            }
            let listing = if cnt_nv == 0 {
                String::new()
            } else {
                let l = names.clone().concat("```").concat(mentions.as_str()).concat("```");
                proof {
                    assert(l@ =~= spec_not_voted_names(members@, reacted@, self_id) + "```"@
                        + spec_not_voted_mentions(members@, reacted@, self_id) + "```"@);
                }
                l
            };
            let response = if cnt_nv > 0 {
                let rp = String::from_str("The following members have not voted yet (").concat(
                    u64_to_dec(cnt_nv).as_str(),
                ).concat("/").concat(u64_to_dec(cnt).as_str()).concat("):\n").concat(
                    listing.as_str(),
                );
                proof {
                    assert(rp@ =~= spec_not_voted_response(members@, reacted@, self_id));
                }
                rp
            } else if cnt > 0 {
                let rp = String::from_str("Everyone's voted (").concat(
                    u64_to_dec(cnt_nv).as_str(),
                ).concat("/").concat(u64_to_dec(cnt).as_str()).concat(") \u{1F44C}");
                proof {
                    assert(rp@ =~= spec_not_voted_response(members@, reacted@, self_id));
                }
                rp
            } else {
                String::from_str("Unable to find any members.")
            };
            let asked = String::from_str(
                " requested the list of all members who have not voted yet (",
            ).concat(u64_to_dec(cnt_nv).as_str()).concat("/").concat(u64_to_dec(cnt).as_str())
                .concat("):");
            proof {
                assert(asked@ =~= " requested the list of all members who have not voted yet ("@
                    + dec_str(cnt_nv as nat) + "/"@ + dec_str(cnt as nat) + "):"@);
            }
            let log = user_mention(requester_id).concat(safe_content(asked.as_str()).as_str())
                .concat("\n").concat(listing.as_str()).concat("\n");
            proof {
                reveal_strlit("\n");
                assert("\n"@ =~= seq!['\n']);
                assert(log@ =~= spec_not_voted_log(members@, reacted@, requester_id, self_id));
            }
            QueryReply { response, log: Some(log) }
        },
    }
}

/// The voice snapshot as the specs see it: the ids in voice channels, or
/// nothing where the guild was not cached.
pub open spec fn voice_view(voice: &Option<Vec<u64>>) -> Option<Seq<u64>> {
    match voice {
        Some(v) => Some(v@),
        None => None,
    }
}

/// Whether `id` is in a voice channel per the snapshot.  Without a snapshot
/// nobody counts as in voice.
pub open spec fn spec_in_voice(voice: Option<Seq<u64>>, id: u64) -> bool {
    match voice {
        Some(v) => v.contains(id),
        None => false,
    }
}

/// How many roster participants other than the bot are in voice.
pub open spec fn spec_in_voice_count(
    users: Seq<Participant>,
    voice: Option<Seq<u64>>,
    self_id: u64,
) -> nat
    decreases users.len(),
{
    if users.len() == 0 {
        0
    } else {
        (if users[0].id != self_id && spec_in_voice(voice, users[0].id) {
            1nat
        } else {
            0nat
        }) + spec_in_voice_count(users.drop_first(), voice, self_id)
    }
}

/// How many roster participants other than the bot are not in voice.
pub open spec fn spec_not_in_voice_count(
    users: Seq<Participant>,
    voice: Option<Seq<u64>>,
    self_id: u64,
) -> nat
    decreases users.len(),
{
    if users.len() == 0 {
        0
    } else {
        (if users[0].id != self_id && !spec_in_voice(voice, users[0].id) {
            1nat
        } else {
            0nat
        }) + spec_not_in_voice_count(users.drop_first(), voice, self_id)
    }
}

/// The name lines of the roster participants in voice.
pub open spec fn spec_in_voice_names(
    users: Seq<Participant>,
    dir: Seq<NickEntry>,
    voice: Option<Seq<u64>>,
    self_id: u64,
) -> Seq<char>
    decreases users.len(),
{
    if users.len() == 0 {
        Seq::empty()
    } else if users[0].id != self_id && spec_in_voice(voice, users[0].id) {
        spec_resolved(dir, users[0]) + seq!['\n'] + spec_in_voice_names(
            users.drop_first(),
            dir,
            voice,
            self_id,
        )
    } else {
        spec_in_voice_names(users.drop_first(), dir, voice, self_id)
    }
}

/// The name lines of the roster participants not in voice.
pub open spec fn spec_not_in_voice_names(
    users: Seq<Participant>,
    dir: Seq<NickEntry>,
    voice: Option<Seq<u64>>,
    self_id: u64,
) -> Seq<char>
    decreases users.len(),
{
    if users.len() == 0 {
        Seq::empty()
    } else if users[0].id != self_id && !spec_in_voice(voice, users[0].id) {
        spec_resolved(dir, users[0]) + seq!['\n'] + spec_not_in_voice_names(
            users.drop_first(),
            dir,
            voice,
            self_id,
        )
    } else {
        spec_not_in_voice_names(users.drop_first(), dir, voice, self_id)
    }
}

/// The mentions of the roster participants not in voice.
pub open spec fn spec_not_in_voice_mentions(
    users: Seq<Participant>,
    voice: Option<Seq<u64>>,
    self_id: u64,
) -> Seq<char>
    decreases users.len(),
{
    if users.len() == 0 {
        Seq::empty()
    } else if users[0].id != self_id && !spec_in_voice(voice, users[0].id) {
        spec_mention(users[0].id) + spec_not_in_voice_mentions(
            users.drop_first(),
            voice,
            self_id,
        )
    } else {
        spec_not_in_voice_mentions(users.drop_first(), voice, self_id)
    }
}

/// The response of the voted-but-not-in-voice query on a found roster.
pub open spec fn spec_not_in_voice_response(
    users: Seq<Participant>,
    dir: Seq<NickEntry>,
    voice: Option<Seq<u64>>,
    react: PollOption,
    self_id: u64,
) -> Seq<char> {
    let cnt = spec_visible_count(users, self_id);
    let niv = spec_not_in_voice_count(users, voice, self_id);
    let inv = spec_in_voice_count(users, voice, self_id);
    if niv > 0 {
        "The following members selected \""@ + spec_glyph(react)
            + "\" and are not present in any of the voice channels right now ("@ + dec_str(niv)
            + "/"@ + dec_str(cnt) + "):\n"@ + spec_not_in_voice_names(users, dir, voice, self_id)
            + "```"@ + spec_not_in_voice_mentions(users, voice, self_id) + "```"@
    } else if cnt > 0 {
        "Everyone's in voice ("@ + dec_str(inv) + "/"@ + dec_str(cnt) + ") \u{1F44C}"@
    } else {
        "Nobody selected \""@ + spec_glyph(react) + "\"."@
    }
}

/// The audit line of the voted-but-not-in-voice query on a found roster.
pub open spec fn spec_not_in_voice_log(
    users: Seq<Participant>,
    dir: Seq<NickEntry>,
    voice: Option<Seq<u64>>,
    react: PollOption,
    requester_id: u64,
    self_id: u64,
) -> Seq<char> {
    let cnt = spec_visible_count(users, self_id);
    let niv = spec_not_in_voice_count(users, voice, self_id);
    let inv = spec_in_voice_count(users, voice, self_id);
    spec_mention(requester_id) + inline_normalized(
        " requested the list of all members who voted \""@ + spec_glyph(react)
            + "\" but are not in voice ("@ + dec_str(niv) + "/"@ + dec_str(cnt) + "):"@,
    ) + seq!['\n'] + (if niv == 0 {
        Seq::empty()
    } else {
        spec_not_in_voice_names(users, dir, voice, self_id) + "```"@ + spec_not_in_voice_mentions(
            users,
            voice,
            self_id,
        ) + "```"@
    }) + seq!['\n'] + "Present in voice channels right now ("@ + dec_str(inv) + "/"@ + dec_str(
        cnt,
    ) + "):"@ + seq!['\n'] + spec_in_voice_names(users, dir, voice, self_id) + seq!['\n']
}

/// Reports who voted `react` but is not in a voice channel right now,
/// against the caller's voice-state snapshot.
#[verifier::rlimit(100)]
#[verifier::spinoff_prover]
pub fn mention_all_who_voted_emoji_not_in_voice(
    lookup: PollLookup,
    voice: &Option<Vec<u64>>,
    dir: &NameDirectory,
    react: PollOption,
    requester_id: u64,
    self_id: u64,
) -> (r: QueryReply)
    requires
        requester_id != 0,
        lookup matches PollLookup::Found(users) ==> nonzero_ids(users@),
    ensures
        match lookup {
            PollLookup::NoChannel => r.response@ == "Unable to find the poll."@ && r.log is None,
            PollLookup::NoMessage => r.response@ == "Unable to find any members."@ && r.log
                is None,
            PollLookup::Found(users) => r.response@ == spec_not_in_voice_response(
                users@,
                dir@,
                voice_view(voice),
                react,
                self_id,
            ) && (r.log matches Some(lg) && lg@ == spec_not_in_voice_log(
                users@,
                dir@,
                voice_view(voice),
                react,
                requester_id,
                self_id,
            )),
        },
{
    match lookup {
        PollLookup::NoChannel => QueryReply {
            response: String::from_str("Unable to find the poll."),
            log: None,
        },
        PollLookup::NoMessage => QueryReply {
            response: String::from_str("Unable to find any members."),
            log: None,
        },
        PollLookup::Found(users) => {
            let ghost gv = voice_view(voice);
            let n = users.len();
            let mut i: usize = 0;
            let mut cnt: u64 = 0;
            let mut niv: u64 = 0;
            let mut inv: u64 = 0;
            let mut names = String::new();
            let mut mentions = String::new();
            let mut names_in_v = String::new();
            proof {
                assert(users@.skip(0) =~= users@);
            }
            while i < n
                invariant
                    i <= n,
                    n == users@.len(),
                    nonzero_ids(users@),
                    gv == voice_view(voice),
                    cnt <= i,
                    niv <= i,
                    inv <= i,
                    cnt as nat + spec_visible_count(users@.skip(i as int), self_id)
                        == spec_visible_count(users@, self_id),
                    niv as nat + spec_not_in_voice_count(users@.skip(i as int), gv, self_id)
                        == spec_not_in_voice_count(users@, gv, self_id),
                    inv as nat + spec_in_voice_count(users@.skip(i as int), gv, self_id)
                        == spec_in_voice_count(users@, gv, self_id),
                    names@ + spec_not_in_voice_names(users@.skip(i as int), dir@, gv, self_id)
                        == spec_not_in_voice_names(users@, dir@, gv, self_id),
                    mentions@ + spec_not_in_voice_mentions(users@.skip(i as int), gv, self_id)
                        == spec_not_in_voice_mentions(users@, gv, self_id),
                    names_in_v@ + spec_in_voice_names(users@.skip(i as int), dir@, gv, self_id)
                        == spec_in_voice_names(users@, dir@, gv, self_id),
                decreases n - i,
            {
                proof {
                    assert(users@.skip(i as int)[0] == users@[i as int]);
                    assert(users@.skip(i as int).drop_first() =~= users@.skip(i as int + 1));
                    reveal_strlit("\n");
                    assert("\n"@ =~= seq!['\n']);
                }
                if users[i].id != self_id {
                    cnt = cnt + 1;
                    let in_voice = match voice {
                        Some(v) => contains_id(v, users[i].id),
                        None => false,
                    };
                    assert(in_voice == spec_in_voice(gv, users@[i as int].id));
                    let line = resolve(dir, &users[i]);
                    if in_voice {
                        names_in_v.append(line.as_str());
                        names_in_v.append("\n");
                        inv = inv + 1;
                    } else {
                        names.append(line.as_str());
                        names.append("\n");
                        let m = user_mention(users[i].id);
                        mentions.append(m.as_str());
                        niv = niv + 1;
                    }
                }
                i += 1;
            }
            proof {
                assert(users@.skip(n as int) =~= Seq::<Participant>::empty());
                assert(names@ + Seq::<char>::empty() =~= names@);
                assert(mentions@ + Seq::<char>::empty() =~= mentions@);
                assert(names_in_v@ + Seq::<char>::empty() =~= names_in_v@);
            }
            let glyph = option_glyph(react);
            let listing = if niv == 0 {
                String::new()
            } else {
                let l = names.clone().concat("```").concat(mentions.as_str()).concat("```");
                proof {
                    assert(l@ =~= spec_not_in_voice_names(users@, dir@, gv, self_id) + "```"@
                        + spec_not_in_voice_mentions(users@, gv, self_id) + "```"@);
                }
                l
            };
            let response = if niv > 0 {
                let rp = String::from_str("The following members selected \"").concat(
                    glyph,
                ).concat(
                    "\" and are not present in any of the voice channels right now (",
                ).concat(u64_to_dec(niv).as_str()).concat("/").concat(u64_to_dec(cnt).as_str())
                    .concat("):\n").concat(listing.as_str());
                proof {
                    assert(rp@ =~= spec_not_in_voice_response(users@, dir@, gv, react, self_id));
                }
                rp
            } else if cnt > 0 {
                let rp = String::from_str("Everyone's in voice (").concat(
                    u64_to_dec(inv).as_str(),
                ).concat("/").concat(u64_to_dec(cnt).as_str()).concat(") \u{1F44C}");
                proof {
                    assert(rp@ =~= spec_not_in_voice_response(users@, dir@, gv, react, self_id));
                }
                rp
            } else {
                let rp = String::from_str("Nobody selected \"").concat(glyph).concat("\".");
                proof {
                    assert(rp@ =~= spec_not_in_voice_response(users@, dir@, gv, react, self_id));
                }
                rp
            };
            let asked = String::from_str(" requested the list of all members who voted \"").concat(
                glyph,
            ).concat("\" but are not in voice (").concat(u64_to_dec(niv).as_str()).concat(
                "/",
            ).concat(u64_to_dec(cnt).as_str()).concat("):");
            proof {
                assert(asked@ =~= " requested the list of all members who voted \""@ + spec_glyph(
                    react,
                ) + "\" but are not in voice ("@ + dec_str(niv as nat) + "/"@ + dec_str(
                    cnt as nat,
                ) + "):"@);
            }
            let present = String::from_str("Present in voice channels right now (").concat(
                u64_to_dec(inv).as_str(),
            ).concat("/").concat(u64_to_dec(cnt).as_str()).concat("):");
            proof {
                assert(present@ =~= "Present in voice channels right now ("@ + dec_str(
                    inv as nat,
                ) + "/"@ + dec_str(cnt as nat) + "):"@);
            }
            let log = user_mention(requester_id).concat(safe_content(asked.as_str()).as_str())
                .concat("\n").concat(listing.as_str()).concat("\n").concat(present.as_str())
                .concat("\n").concat(names_in_v.as_str()).concat("\n");
            proof {
                reveal_strlit("\n");
                assert("\n"@ =~= seq!['\n']);
                assert(log@ =~= spec_not_in_voice_log(
                    users@,
                    dir@,
                    gv,
                    react,
                    requester_id,
                    self_id,
                ));
            }
            QueryReply { response, log: Some(log) }
        },
    }
}

} // verus!
