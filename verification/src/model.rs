//! The data the poll logic works on: options, change kinds, participants and
//! the snapshots the caller hands in place of live platform state.

use vstd::prelude::*;

verus! {

/// One of the three mutually exclusive choices a participant can make.
#[derive(Clone, Copy, PartialEq, Eq, Structural, Debug)]
pub enum PollOption {
    Accept,
    Decline,
    Tentative,
}

/// How a reaction on the poll message changed.
#[derive(Clone, Copy, PartialEq, Eq, Structural, Debug)]
pub enum ChangeKind {
    Added,
    Removed,
    RemovedEmoji,
}

/// A participant as read from one reaction set: the platform id and the
/// global display name that came with it.
#[derive(Debug)]
pub struct Participant {
    pub id: u64,
    pub display_name: String,
}

/// A guild-scoped nickname, one entry of the caller's cache snapshot.
#[derive(Debug)]
pub struct NickEntry {
    pub id: u64,
    pub nick: String,
}

/// Snapshot of the guild nicknames known to the caller.  Purely read; absence
/// of an entry is the fallback trigger, not an error.
pub struct NameDirectory {
    pub entries: Vec<NickEntry>,
}

/// An active thread as listed by the platform: its id and, where it has one,
/// the id of the channel it hangs under.
#[derive(Clone, Copy, Debug)]
pub struct ThreadInfo {
    pub id: u64,
    pub parent_id: Option<u64>,
}

/// The kind of a channel, as far as the poll logic distinguishes kinds.
#[derive(Clone, Copy, PartialEq, Eq, Structural, Debug)]
pub enum ChannelKind {
    Text,
    PublicThread,
    PrivateThread,
    Other,
}

/// A channel reference as handed in by the caller: id, kind and, for
/// threads, the parent channel.
#[derive(Clone, Copy, Debug)]
pub struct ChannelRef {
    pub id: u64,
    pub kind: ChannelKind,
    pub parent_id: Option<u64>,
}

/// The participant ids of a roster, in roster order.
pub open spec fn ids_of(s: Seq<Participant>) -> Seq<u64> {
    s.map_values(|p: Participant| p.id)
}

/// Each id occurs at most once: what the platform guarantees of one
/// reaction's user list.
pub open spec fn distinct_ids(s: Seq<Participant>) -> bool {
    forall|i: int, j: int| 0 <= i < j < s.len() ==> s[i].id != s[j].id
}

/// Platform ids are never zero; mentions are only defined for such ids.
pub open spec fn nonzero_ids(s: Seq<Participant>) -> bool {
    forall|i: int| 0 <= i < s.len() ==> s[i].id != 0
}

/// The nickname the directory holds for `id`: the first matching entry wins.
pub open spec fn spec_nick(dir: Seq<NickEntry>, id: u64) -> Option<Seq<char>>
    decreases dir.len(),
{
    if dir.len() == 0 {
        None
    } else if dir[0].id == id {
        Some(dir[0].nick@)
    } else {
        spec_nick(dir.drop_first(), id)
    }
}

/// Whether `ids` holds `x`.
pub fn contains_id(ids: &Vec<u64>, x: u64) -> (r: bool)
    ensures
        r == ids@.contains(x),
{
    let n = ids.len();
    let mut i: usize = 0;
    while i < n
        invariant
            i <= n,
            n == ids@.len(),
            forall|k: int| 0 <= k < i ==> ids@[k] != x,
        decreases n - i,
    {
        if ids[i] == x {
            return true;
        }
        i += 1;
    }
    false
}

/// The emoji glyph that stands for `opt` on the poll message.  These three
/// are the tracked emojis; every other reaction is ignored.
pub open spec fn spec_glyph(opt: PollOption) -> Seq<char> {
    match opt {
        PollOption::Accept => "\u{2705}"@,
        PollOption::Decline => "\u{274C}"@,
        PollOption::Tentative => "\u{2754}"@,
    }
}

/// The emoji glyph for `opt`, as written on the message and in the reports.
pub fn option_glyph(opt: PollOption) -> (r: &'static str)
    ensures
        r@ == spec_glyph(opt),
{
    match opt {
        PollOption::Accept => "\u{2705}",
        PollOption::Decline => "\u{274C}",
        PollOption::Tentative => "\u{2754}",
    }
}

/// The section label for `opt` in the rendered body.
pub open spec fn spec_label(opt: PollOption) -> Seq<char> {
    match opt {
        PollOption::Accept => "Accepted"@,
        PollOption::Decline => "Declined"@,
        PollOption::Tentative => "Tentative"@,
    }
}

/// The section label for `opt`, as written in the rendered body.
pub fn label_str(opt: PollOption) -> (r: &'static str)
    ensures
        r@ == spec_label(opt),
{
    match opt {
        PollOption::Accept => "Accepted",
        PollOption::Decline => "Declined",
        PollOption::Tentative => "Tentative",
    }
}

impl View for NameDirectory {
    type V = Seq<NickEntry>;

    open spec fn view(&self) -> Seq<NickEntry> {
        self.entries@
    }
}

} // verus!
