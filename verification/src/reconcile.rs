//! The poll reconciliation engine: given the three freshly read reaction
//! rosters and the event that triggered the read, drops conflicting
//! selections of the acting participant, renders the corrected body in one
//! pass, and returns the corrective removals for the caller to issue.

use vstd::prelude::*;

use crate::model::NameDirectory;
use crate::model::Participant;
use crate::model::PollOption;
use crate::model::distinct_ids;
use crate::model::ids_of;
use crate::render::render;
use crate::render::spec_render;

verus! {

/// One corrective reaction removal the caller must issue on the message.
#[derive(Clone, Copy, PartialEq, Eq, Structural, Debug)]
pub struct Removal {
    pub user_id: u64,
    pub option: PollOption,
}

/// Whether a roster entry conflicts with the option just added: it is the
/// acting participant's reaction under an option other than the one they
/// chose.  The bot's own seed reactions are never corrected.
pub open spec fn conflict_hit(
    p: Participant,
    opt: PollOption,
    changed: PollOption,
    acting: Option<u64>,
    self_id: u64,
) -> bool {
    acting == Some(p.id) && p.id != self_id && opt != changed
}

/// The roster of option `opt` after conflict resolution: the entries that
/// stay, in their original order.
pub open spec fn spec_corrected(
    s: Seq<Participant>,
    opt: PollOption,
    changed: PollOption,
    acting: Option<u64>,
    self_id: u64,
) -> Seq<Participant>
    decreases s.len(),
{
    if s.len() == 0 {
        Seq::empty()
    } else if conflict_hit(s[0], opt, changed, acting, self_id) {
        spec_corrected(s.drop_first(), opt, changed, acting, self_id)
    } else {
        seq![s[0]] + spec_corrected(s.drop_first(), opt, changed, acting, self_id)
    }
}

/// The removals to issue for option `opt`: one per conflicting entry.
pub open spec fn spec_removals(
    s: Seq<Participant>,
    opt: PollOption,
    changed: PollOption,
    acting: Option<u64>,
    self_id: u64,
) -> Seq<Removal>
    decreases s.len(),
{
    if s.len() == 0 {
        Seq::empty()
    } else if conflict_hit(s[0], opt, changed, acting, self_id) {
        seq![Removal { user_id: s[0].id, option: opt }] + spec_removals(
            s.drop_first(),
            opt,
            changed,
            acting,
            self_id,
        )
    } else {
        spec_removals(s.drop_first(), opt, changed, acting, self_id)
    }
}

/// Splits one roster into the entries that stay and the removals to issue.
pub fn correct_roster(
    roster: Vec<Participant>,
    opt: PollOption,
    changed: PollOption,
    acting: Option<u64>,
    self_id: u64,
) -> (r: (Vec<Participant>, Vec<Removal>))
    ensures
        r.0@ == spec_corrected(roster@, opt, changed, acting, self_id),
        r.1@ == spec_removals(roster@, opt, changed, acting, self_id),
{
    let ghost whole = roster@;
    let mut rest = roster;
    let mut kept: Vec<Participant> = Vec::new();
    let mut removals: Vec<Removal> = Vec::new();
    while rest.len() > 0
        invariant
            kept@ + spec_corrected(rest@, opt, changed, acting, self_id) == spec_corrected(
                whole,
                opt,
                changed,
                acting,
                self_id,
            ),
            removals@ + spec_removals(rest@, opt, changed, acting, self_id) == spec_removals(
                whole,
                opt,
                changed,
                acting,
                self_id,
            ),
        decreases rest.len(),
    {
        let ghost before = rest@;
        let p = rest.remove(0);
        proof {
            assert(rest@ =~= before.drop_first());
        }
        let hit = match acting {
            Some(a) => p.id == a && p.id != self_id && opt != changed,
            None => false,
        };
        assert(hit == conflict_hit(p, opt, changed, acting, self_id));
        if hit {
            removals.push(Removal { user_id: p.id, option: opt });
            proof {
                assert(removals@ + spec_removals(rest@, opt, changed, acting, self_id)
                    =~= spec_removals(whole, opt, changed, acting, self_id));
            }
        } else {
            kept.push(p);
            proof {
                assert(kept@ + spec_corrected(rest@, opt, changed, acting, self_id)
                    =~= spec_corrected(whole, opt, changed, acting, self_id));
            }
        }
    }
    proof {
        assert(kept@ + spec_corrected(rest@, opt, changed, acting, self_id) =~= kept@);
        assert(removals@ + spec_removals(rest@, opt, changed, acting, self_id) =~= removals@);
    }
    (kept, removals)
}

/// What one reconciliation produces: the new body and the corrective
/// removals, to be issued independently of each other.
pub struct ReconcileOutcome {
    pub body: String,
    pub removals: Vec<Removal>,
}

/// Recomputes the poll body from the three freshly read rosters.  Where the
/// event added `changed` for an acting participant, their entries under the
/// other two options are dropped before rendering — a single render thus
/// reflects the corrected state — and returned as removals, accept first,
/// then decline, then tentative.
pub fn reconcile(
    accepted: Vec<Participant>,
    declined: Vec<Participant>,
    tentative: Vec<Participant>,
    dir: &NameDirectory,
    self_id: u64,
    acting: Option<u64>,
    changed: PollOption,
) -> (r: ReconcileOutcome)
    ensures
        r.body@ == spec_render(
            spec_corrected(accepted@, PollOption::Accept, changed, acting, self_id),
            spec_corrected(declined@, PollOption::Decline, changed, acting, self_id),
            spec_corrected(tentative@, PollOption::Tentative, changed, acting, self_id),
            dir@,
            self_id,
        ),
        r.removals@ == spec_removals(accepted@, PollOption::Accept, changed, acting, self_id)
            + spec_removals(declined@, PollOption::Decline, changed, acting, self_id)
            + spec_removals(tentative@, PollOption::Tentative, changed, acting, self_id),
{
    let (ka, mut ra) = correct_roster(accepted, PollOption::Accept, changed, acting, self_id);
    let (kd, mut rd) = correct_roster(declined, PollOption::Decline, changed, acting, self_id);
    let (kt, mut rt) = correct_roster(tentative, PollOption::Tentative, changed, acting, self_id);
    let body = render(&ka, &kd, &kt, dir, self_id);
    ra.append(&mut rd);
    ra.append(&mut rt);
    ReconcileOutcome { body, removals: ra }
}

/// Restriction of `distinct_ids` to the tail of a roster.
proof fn lemma_distinct_drop_first(s: Seq<Participant>)
    requires
        s.len() > 0,
        distinct_ids(s),
    ensures
        distinct_ids(s.drop_first()),
{
    let rest = s.drop_first();
    assert(forall|i: int| 0 <= i < rest.len() ==> rest[i] == s[i + 1]);
}

/// Correction under the option the participant chose changes nothing: the
/// roster stays whole and no removal is issued.
pub proof fn lemma_correction_same_option(
    s: Seq<Participant>,
    opt: PollOption,
    acting: Option<u64>,
    self_id: u64,
)
    ensures
        spec_corrected(s, opt, opt, acting, self_id) == s,
        spec_removals(s, opt, opt, acting, self_id) == Seq::<Removal>::empty(),
    decreases s.len(),
{
    if s.len() > 0 {
        lemma_correction_same_option(s.drop_first(), opt, acting, self_id);
        assert(seq![s[0]] + s.drop_first() =~= s);
    }
}

/// Correction under another option removes the acting participant's entry:
/// the corrected roster no longer holds their id, and with the distinct ids
/// the platform guarantees, exactly one removal is issued — for them, under
/// `opt` — where they stood in the roster, and none where they did not.
pub proof fn lemma_correction_other_option(
    s: Seq<Participant>,
    opt: PollOption,
    changed: PollOption,
    p: u64,
    self_id: u64,
)
    requires
        opt != changed,
        p != self_id,
        distinct_ids(s),
    ensures
        !ids_of(spec_corrected(s, opt, changed, Some(p), self_id)).contains(p),
        spec_removals(s, opt, changed, Some(p), self_id).len() == (if ids_of(s).contains(p) {
            1int
        } else {
            0int
        }),
        ids_of(s).contains(p) ==> spec_removals(s, opt, changed, Some(p), self_id)[0] == (Removal {
            user_id: p,
            option: opt,
        }),
    decreases s.len(),
{
    if s.len() == 0 {
        assert(ids_of(s).len() == 0);
    } else {
        let rest = s.drop_first();
        lemma_distinct_drop_first(s);
        lemma_correction_other_option(rest, opt, changed, p, self_id);
        assert(conflict_hit(s[0], opt, changed, Some(p), self_id) == (s[0].id == p));
        if s[0].id == p {
            assert(ids_of(s).contains(p)) by {
                assert(ids_of(s)[0] == p);
            }
            assert(!ids_of(rest).contains(p)) by {
                if ids_of(rest).contains(p) {
                    let k = choose|k: int| 0 <= k < ids_of(rest).len() && ids_of(rest)[k] == p;
                    assert(rest[k].id == p);
                    assert(s[k + 1].id == p);
                    assert(s[0].id != s[k + 1].id);
                }
            }
            assert(spec_removals(s, opt, changed, Some(p), self_id) =~= seq![
                Removal { user_id: p, option: opt },
            ]);
        } else {
            assert(ids_of(s).contains(p) == ids_of(rest).contains(p)) by {
                if ids_of(rest).contains(p) {
                    let k = choose|k: int| 0 <= k < ids_of(rest).len() && ids_of(rest)[k] == p;
                    assert(ids_of(s)[k + 1] == rest[k].id);
                }
                if ids_of(s).contains(p) {
                    let k = choose|k: int| 0 <= k < ids_of(s).len() && ids_of(s)[k] == p;
                    assert(s[k].id == p);
                    assert(k != 0);
                    assert(ids_of(rest)[k - 1] == rest[k - 1].id);
                }
            }
            let ck = spec_corrected(rest, opt, changed, Some(p), self_id);
            assert(!ids_of(seq![s[0]] + ck).contains(p)) by {
                if ids_of(seq![s[0]] + ck).contains(p) {
                    let k = choose|k: int|
                        0 <= k < ids_of(seq![s[0]] + ck).len() && ids_of(seq![s[0]] + ck)[k] == p;
                    assert((seq![s[0]] + ck)[k].id == p);
                    if k == 0 {
                        assert(s[0].id == p);
                    } else {
                        assert(ids_of(ck)[k - 1] == ck[k - 1].id);
                    }
                }
            }
        }
    }
}

/// Conflict resolution: a participant `p` standing in both the accept and
/// decline rosters when an event adds the tentative reaction for `p` is
/// dropped from both — exactly one removal each for accept and decline, none
/// for tentative — while the tentative roster stays whole, so the render
/// produced from the corrected rosters lists `p` only under tentative.
pub proof fn lemma_conflict_resolution(
    a: Seq<Participant>,
    d: Seq<Participant>,
    t: Seq<Participant>,
    p: u64,
    self_id: u64,
)
    requires
        distinct_ids(a),
        distinct_ids(d),
        ids_of(a).contains(p),
        ids_of(d).contains(p),
        p != self_id,
    ensures
        spec_removals(a, PollOption::Accept, PollOption::Tentative, Some(p), self_id) == seq![
            Removal { user_id: p, option: PollOption::Accept },
        ],
        spec_removals(d, PollOption::Decline, PollOption::Tentative, Some(p), self_id) == seq![
            Removal { user_id: p, option: PollOption::Decline },
        ],
        spec_removals(t, PollOption::Tentative, PollOption::Tentative, Some(p), self_id)
            == Seq::<Removal>::empty(),
        !ids_of(
            spec_corrected(a, PollOption::Accept, PollOption::Tentative, Some(p), self_id),
        ).contains(p),
        !ids_of(
            spec_corrected(d, PollOption::Decline, PollOption::Tentative, Some(p), self_id),
        ).contains(p),
        spec_corrected(t, PollOption::Tentative, PollOption::Tentative, Some(p), self_id) == t,
{
    lemma_correction_other_option(a, PollOption::Accept, PollOption::Tentative, p, self_id);
    lemma_correction_other_option(d, PollOption::Decline, PollOption::Tentative, p, self_id);
    lemma_correction_same_option(t, PollOption::Tentative, Some(p), self_id);
    assert(spec_removals(a, PollOption::Accept, PollOption::Tentative, Some(p), self_id) =~= seq![
        Removal { user_id: p, option: PollOption::Accept },
    ]);
    assert(spec_removals(d, PollOption::Decline, PollOption::Tentative, Some(p), self_id) =~= seq![
        Removal { user_id: p, option: PollOption::Decline },
    ]);
}

} // verus!
