//! The audit log router: finds the companion thread of a poll's hosting
//! channel among the guild's active threads, or plans its creation, and
//! composes the human-readable line describing an accepted event.  The
//! caller carries the plan out; its failure never blocks the poll rewrite.

use vstd::prelude::*;

use crate::digits::dec_str;
use crate::digits::u64_to_dec;
use crate::markup::spec_mention;
use crate::markup::user_mention;
use crate::model::ChangeKind;
use crate::model::NameDirectory;
use crate::model::NickEntry;
use crate::model::PollOption;
use crate::model::ThreadInfo;
use crate::model::option_glyph;
use crate::model::spec_glyph;
use crate::model::spec_nick;
use crate::resolve::nick_in_from_cache;

verus! {

/// The first active thread hanging under `parent_id`, if any.
pub open spec fn spec_find_thread(threads: Seq<ThreadInfo>, parent_id: u64) -> Option<u64>
    decreases threads.len(),
{
    if threads.len() == 0 {
        None
    } else if threads[0].parent_id == Some(parent_id) {
        Some(threads[0].id)
    } else {
        spec_find_thread(threads.drop_first(), parent_id)
    }
}

/// Finds an active thread by the channel it hangs under: the first listed
/// thread whose parent matches, as the platform ordered them.
pub fn find_thread_by_parent_id(threads: &Vec<ThreadInfo>, parent_id: u64) -> (r: Option<u64>)
    ensures
        r == spec_find_thread(threads@, parent_id),
{
    let n = threads.len();
    let mut i: usize = 0;
    proof {
        assert(threads@.skip(0) =~= threads@);
    }
    while i < n
        invariant
            i <= n,
            n == threads@.len(),
            spec_find_thread(threads@.skip(i as int), parent_id) == spec_find_thread(
                threads@,
                parent_id,
            ),
        decreases n - i,
    {
        proof {
            assert(threads@.skip(i as int)[0] == threads@[i as int]);
            assert(threads@.skip(i as int).drop_first() =~= threads@.skip(i as int + 1));
        }
        let hit = match threads[i].parent_id {
            Some(tp) => tp == parent_id,
            None => false,
        };
        if hit {
            return Some(threads[i].id);
        }
        i += 1;
    }
    proof {
        assert(threads@.skip(n as int) =~= Seq::<ThreadInfo>::empty());
    }
    None
}

/// Where a planned post goes: the thread that was found, or the one the plan
/// creates first.
#[derive(Clone, Copy, PartialEq, Eq, Structural, Debug)]
pub enum PostTarget {
    Existing(u64),
    NewThread,
}

/// One planned plain-text post.
pub struct Post {
    pub target: PostTarget,
    pub text: String,
}

/// The plan for appending one audit line: at most one thread to create
/// (named deterministically from the poll message id), then the posts in
/// order.
pub struct AuditPlan {
    pub create_name: Option<String>,
    pub posts: Vec<Post>,
}

/// The deterministic name of a poll's audit thread.
pub open spec fn spec_thread_name(poll_message_id: u64) -> Seq<char> {
    "log-"@ + dec_str(poll_message_id as nat)
}

/// The notice posted into a freshly created audit thread.
pub open spec fn spec_created_notice() -> Seq<char> {
    "Can't find an existing log thread, created a new one."@
}

/// Plans the append of one audit line under the hosting channel `gch_id`:
/// post to the thread found among `threads`, or, where none hangs under the
/// channel, create one named from the poll message id, post the creation
/// notice into it, then post the line.
pub fn append_plan(
    threads: &Vec<ThreadInfo>,
    gch_id: u64,
    poll_message_id: u64,
    log_message: &String,
) -> (plan: AuditPlan)
    ensures
        match spec_find_thread(threads@, gch_id) {
            Some(t) => plan.create_name is None && plan.posts@.len() == 1
                && plan.posts@[0].target == PostTarget::Existing(t) && plan.posts@[0].text@
                == log_message@,
            None => (plan.create_name matches Some(nm) && nm@ == spec_thread_name(poll_message_id))
                && plan.posts@.len() == 2 && plan.posts@[0].target == PostTarget::NewThread
                && plan.posts@[0].text@ == spec_created_notice() && plan.posts@[1].target
                == PostTarget::NewThread && plan.posts@[1].text@ == log_message@,
        },
{
    let mut posts: Vec<Post> = Vec::new();
    match find_thread_by_parent_id(threads, gch_id) {
        Some(t) => {
            posts.push(Post { target: PostTarget::Existing(t), text: log_message.clone() });
            AuditPlan { create_name: None, posts }
        },
        None => {
            let name = String::from_str("log-").concat(u64_to_dec(poll_message_id).as_str());
            posts.push(
                Post {
                    target: PostTarget::NewThread,
                    text: String::from_str(
                        "Can't find an existing log thread, created a new one.",
                    ),
                },
            );
            posts.push(Post { target: PostTarget::NewThread, text: log_message.clone() });
            AuditPlan { create_name: Some(name), posts }
        },
    }
}

/// Audit routing: where no active thread hangs under the hosting channel,
/// the lookup finds nothing — so the append plan creates exactly one thread
/// and posts the line exactly once, into it — and where one does, the lookup
/// finds a thread, and the plan creates none.
pub proof fn lemma_append_routing(threads: Seq<ThreadInfo>, parent_id: u64)
    ensures
        (spec_find_thread(threads, parent_id) is None) <==> (forall|i: int|
            0 <= i < threads.len() ==> threads[i].parent_id != Some(parent_id)),
    decreases threads.len(),
{
    if threads.len() > 0 {
        let rest = threads.drop_first();
        lemma_append_routing(rest, parent_id);
        assert(forall|i: int| 0 <= i < rest.len() ==> rest[i] == threads[i + 1]);
        if threads[0].parent_id != Some(parent_id) && (forall|i: int|
            0 <= i < rest.len() ==> rest[i].parent_id != Some(parent_id)) {
            assert(forall|i: int|
                0 <= i < threads.len() ==> threads[i].parent_id != Some(parent_id)) by {
                assert(forall|i: int| 1 <= i < threads.len() ==> threads[i] == rest[i - 1]);
            }
        }
    }
}

/// The acting participant of an audit line, as the caller resolved them:
/// their platform id and global display name.
pub struct ActorInfo {
    pub id: u64,
    pub display_name: String,
}

/// The actor part of an audit line: display name, the guild nickname in
/// parentheses where the snapshot holds one, and the mention in backticks;
/// or a fixed phrase where the platform reported no acting participant.
pub open spec fn spec_actor_text(actor: Option<ActorInfo>, dir: Seq<NickEntry>) -> Seq<char> {
    match actor {
        None => "Someone (no user_id)"@,
        Some(a) => a.display_name@ + (match spec_nick(dir, a.id) {
            Some(n) => " ("@ + n + ")"@,
            None => Seq::empty(),
        }) + " `"@ + spec_mention(a.id) + "`"@,
    }
}

/// The verb phrase of an audit line.
pub open spec fn spec_action_text(kind: ChangeKind) -> Seq<char> {
    match kind {
        ChangeKind::Added => " reacted with "@,
        ChangeKind::Removed => " removed "@,
        ChangeKind::RemovedEmoji => " removed emoji "@,
    }
}

/// The whole audit line for one accepted event.
pub open spec fn spec_event_text(
    actor: Option<ActorInfo>,
    dir: Seq<NickEntry>,
    changed: PollOption,
    kind: ChangeKind,
) -> Seq<char> {
    spec_actor_text(actor, dir) + spec_action_text(kind) + spec_glyph(changed)
}

/// Composes the audit line describing one accepted event.  Also the short
/// summary the engine hands back for logging.
pub fn describe_event(
    actor: &Option<ActorInfo>,
    dir: &NameDirectory,
    changed: PollOption,
    kind: ChangeKind,
) -> (r: String)
    requires
        actor matches Some(a) ==> a.id != 0,
    ensures
        r@ == spec_event_text(*actor, dir@, changed, kind),
{
    let who = match actor {
        None => String::from_str("Someone (no user_id)"),
        Some(a) => {
            let nick_part = match nick_in_from_cache(dir, a.id) {
                Some(n) => String::from_str(" (").concat(n.as_str()).concat(")"),
                None => String::new(),
            };
            let r = a.display_name.clone().concat(nick_part.as_str()).concat(" `").concat(
                user_mention(a.id).as_str(),
            ).concat("`");
            proof {
                assert(r@ =~= spec_actor_text(*actor, dir@));
            }
            r
        },
    };
    let verb = match kind {
        ChangeKind::Added => " reacted with ",
        ChangeKind::Removed => " removed ",
        ChangeKind::RemovedEmoji => " removed emoji ",
    };
    let r = who.concat(verb).concat(option_glyph(changed));
    proof {
        assert(r@ =~= spec_event_text(*actor, dir@, changed, kind));
    }
    r
}

} // verus!
