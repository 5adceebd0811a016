//! The name resolver: picks a display string for a participant, preferring a
//! guild nickname from the caller's snapshot and falling back to the global
//! display name, and neutralizes any markup in it.

use vstd::prelude::*;

use crate::markup::inline_normalized;
use crate::markup::safe_content;
use crate::model::NameDirectory;
use crate::model::NickEntry;
use crate::model::Participant;
use crate::model::spec_nick;

verus! {

/// The name the resolver picks before escaping: the guild nickname where the
/// snapshot holds one, the participant's global display name otherwise.
pub open spec fn spec_raw_name(dir: Seq<NickEntry>, p: Participant) -> Seq<char> {
    match spec_nick(dir, p.id) {
        Some(n) => n,
        None => p.display_name@,
    }
}

/// What the resolver returns: the picked name with markup neutralized.
pub open spec fn spec_resolved(dir: Seq<NickEntry>, p: Participant) -> Seq<char> {
    inline_normalized(spec_raw_name(dir, p))
}

/// The guild nickname the snapshot holds for `u_id`, if any.  Absence is the
/// fallback trigger, not an error.
pub fn nick_in_from_cache(dir: &NameDirectory, u_id: u64) -> (r: Option<String>)
    ensures
        (r is Some) == (spec_nick(dir@, u_id) is Some),
        r matches Some(n) ==> spec_nick(dir@, u_id) == Some(n@),
{
    let n = dir.entries.len();
    let mut i: usize = 0;
    proof {
        assert(dir@.skip(0) =~= dir@);
    }
    while i < n
        invariant
            i <= n,
            n == dir@.len(),
            spec_nick(dir@.skip(i as int), u_id) == spec_nick(dir@, u_id),
        decreases n - i,
    {
        proof {
            assert(dir@.skip(i as int)[0] == dir@[i as int]);
            assert(dir@.skip(i as int).drop_first() =~= dir@.skip(i as int + 1));
        }
        if dir.entries[i].id == u_id {
            return Some(dir.entries[i].nick.clone());
        }
        i += 1;
    }
    proof {
        assert(dir@.skip(n as int) =~= Seq::<NickEntry>::empty());
    }
    None
}

/// Resolves `p` to the string the renderer and the reports print: nickname or
/// display name, markup neutralized.
pub fn resolve(dir: &NameDirectory, p: &Participant) -> (r: String)
    ensures
        r@ == spec_resolved(dir@, *p),
{
    match nick_in_from_cache(dir, p.id) {
        Some(n) => safe_content(n.as_str()),
        None => safe_content(p.display_name.as_str()),
    }
}

} // verus!
