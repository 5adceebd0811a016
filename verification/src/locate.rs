//! Locating the poll: which channel a command aims at, and which message in
//! it is the bot's own latest post.

use vstd::prelude::*;

use crate::model::ChannelKind;
use crate::model::ChannelRef;

verus! {

/// The channel a poll command works on: the channel itself where it is a
/// text channel, its parent where it is a thread, nothing otherwise.
pub open spec fn spec_suitable_channel(c: ChannelRef) -> Option<u64> {
    match c.kind {
        ChannelKind::Text => Some(c.id),
        ChannelKind::PublicThread => c.parent_id,
        ChannelKind::PrivateThread => c.parent_id,
        ChannelKind::Other => None,
    }
}

/// Picks the channel that can hold the poll for a command issued in `pch`.
pub fn find_suitable_channel(pch: &ChannelRef) -> (r: Option<u64>)
    ensures
        r == spec_suitable_channel(*pch),
{
    match pch.kind {
        ChannelKind::Text => Some(pch.id),
        ChannelKind::PublicThread => pch.parent_id,
        ChannelKind::PrivateThread => pch.parent_id,
        ChannelKind::Other => None,
    }
}

/// Finds the bot's own latest message: `authors` lists the message authors
/// newest first, and the result is the position of the first entry written
/// by `own_id`, if any.
pub fn find_last_own_message(authors: &Vec<u64>, own_id: u64) -> (r: Option<usize>)
    ensures
        r matches Some(i) ==> i < authors@.len() && authors@[i as int] == own_id && (forall|j: int|
            0 <= j < i ==> authors@[j] != own_id),
        r is None ==> forall|j: int| 0 <= j < authors@.len() ==> authors@[j] != own_id,
{
    let n = authors.len();
    let mut i: usize = 0;
    while i < n
        invariant
            i <= n,
            n == authors@.len(),
            forall|j: int| 0 <= j < i ==> authors@[j] != own_id,
        decreases n - i,
    {
        if authors[i] == own_id {
            return Some(i);
        }
        i += 1;
    }
    None
}

} // verus!
