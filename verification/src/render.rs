//! The membership renderer: turns the three reaction rosters into the
//! canonical message body — three ordered sections, each a header with the
//! emoji glyph, a bold underlined label and a count suffix, followed by one
//! resolved name per line.  The bot's own seed reactions are excluded.

use vstd::prelude::*;

use crate::digits::dec_str;
use crate::digits::u64_to_dec;
use crate::markup::bold_line_safe;
use crate::markup::bold_normalized;
use crate::model::NameDirectory;
use crate::model::NickEntry;
use crate::model::Participant;
use crate::model::PollOption;
use crate::model::distinct_ids;
use crate::model::ids_of;
use crate::model::label_str;
use crate::model::option_glyph;
use crate::model::spec_glyph;
use crate::model::spec_label;
use crate::resolve::resolve;
use crate::resolve::spec_resolved;

verus! {

/// How many participants of `s` a section lists: all but `self_id`.
pub open spec fn spec_visible_count(s: Seq<Participant>, self_id: u64) -> nat
    decreases s.len(),
{
    if s.len() == 0 {
        0
    } else {
        (if s[0].id == self_id {
            0nat
        } else {
            1nat
        }) + spec_visible_count(s.drop_first(), self_id)
    }
}

/// The name lines of a section: one resolved name per line, in roster order,
/// skipping `self_id`.
pub open spec fn spec_name_lines(s: Seq<Participant>, dir: Seq<NickEntry>, self_id: u64) -> Seq<
    char,
>
    decreases s.len(),
{
    if s.len() == 0 {
        Seq::empty()
    } else if s[0].id == self_id {
        spec_name_lines(s.drop_first(), dir, self_id)
    } else {
        spec_resolved(dir, s[0]) + seq!['\n'] + spec_name_lines(s.drop_first(), dir, self_id)
    }
}

/// The count suffix of a header: " (n)" when n > 0, empty when n = 0.
pub open spec fn spec_count_suffix(n: nat) -> Seq<char> {
    if n == 0 {
        Seq::empty()
    } else {
        " ("@ + dec_str(n) + ")"@
    }
}

/// The text handed to the bold safe push for a section header.
pub open spec fn spec_header_content(opt: PollOption, n: nat) -> Seq<char> {
    " __"@ + spec_label(opt) + "__"@ + spec_count_suffix(n) + ":"@
}

/// A section header: the emoji glyph, then the bold line around the
/// normalized label and count.
pub open spec fn spec_header(opt: PollOption, n: nat) -> Seq<char> {
    spec_glyph(opt) + seq!['*', '*'] + bold_normalized(spec_header_content(opt, n)) + seq![
        '*',
        '*',
        '\n',
    ]
}

/// One whole section: header, then the name lines.
pub open spec fn spec_section(
    opt: PollOption,
    s: Seq<Participant>,
    dir: Seq<NickEntry>,
    self_id: u64,
) -> Seq<char> {
    spec_header(opt, spec_visible_count(s, self_id)) + spec_name_lines(s, dir, self_id)
}

/// The whole body: a spacer line, the three sections in fixed order each
/// followed by a blank line, and a closing spacer line.
pub open spec fn spec_render(
    a: Seq<Participant>,
    d: Seq<Participant>,
    t: Seq<Participant>,
    dir: Seq<NickEntry>,
    self_id: u64,
) -> Seq<char> {
    "_ _\n"@ + spec_section(PollOption::Accept, a, dir, self_id) + seq!['\n'] + spec_section(
        PollOption::Decline,
        d,
        dir,
        self_id,
    ) + seq!['\n'] + spec_section(PollOption::Tentative, t, dir, self_id) + seq!['\n'] + "_ _\n"@
}

/// The count suffix for `n` listed participants.
fn count_suffix(n: u64) -> (r: String)
    ensures
        r@ == spec_count_suffix(n as nat),
{
    if n == 0 {
        String::new()
    } else {
        let r = String::from_str(" (").concat(u64_to_dec(n).as_str()).concat(")");
        proof {
            assert(r@ =~= spec_count_suffix(n as nat));
        }
        r
    }
}

/// Renders one section of the body from its roster.
pub fn render_section(
    opt: PollOption,
    roster: &Vec<Participant>,
    dir: &NameDirectory,
    self_id: u64,
) -> (r: String)
    ensures
        r@ == spec_section(opt, roster@, dir@, self_id),
{
    let n = roster.len();
    let mut i: usize = 0;
    let mut cnt: u64 = 0;
    let mut names = String::new();
    proof {
        assert(roster@.skip(0) =~= roster@);
    }
    while i < n
        invariant
            i <= n,
            n == roster@.len(),
            cnt <= i,
            cnt as nat + spec_visible_count(roster@.skip(i as int), self_id)
                == spec_visible_count(roster@, self_id),
            names@ + spec_name_lines(roster@.skip(i as int), dir@, self_id) == spec_name_lines(
                roster@,
                dir@,
                self_id,
            ),
        decreases n - i,
    {
        proof {
            assert(roster@.skip(i as int)[0] == roster@[i as int]);
            assert(roster@.skip(i as int).drop_first() =~= roster@.skip(i as int + 1));
            reveal_strlit("\n");
            assert("\n"@ =~= seq!['\n']);
        }
        if roster[i].id != self_id {
            let line = resolve(dir, &roster[i]);
            names.append(line.as_str());
            names.append("\n");
            cnt = cnt + 1;
        }
        i += 1;
    }
    proof {
        assert(roster@.skip(n as int) =~= Seq::<Participant>::empty());
        assert(names@ + Seq::<char>::empty() =~= names@);
    }
    let suffix = count_suffix(cnt);
    let content = String::from_str(" __").concat(label_str(opt)).concat("__").concat(
        suffix.as_str(),
    ).concat(":");
    proof {
        assert(content@ =~= spec_header_content(opt, cnt as nat));
    }
    let bold = bold_line_safe(content.as_str());
    let r = String::from_str(option_glyph(opt)).concat(bold.as_str()).concat(names.as_str());
    proof {
        assert(r@ =~= spec_section(opt, roster@, dir@, self_id));
    }
    r
}

/// Renders the whole body from the three rosters.  Deterministic: the result
/// is a function of the arguments alone.
pub fn render(
    accepted: &Vec<Participant>,
    declined: &Vec<Participant>,
    tentative: &Vec<Participant>,
    dir: &NameDirectory,
    self_id: u64,
) -> (r: String)
    ensures
        r@ == spec_render(accepted@, declined@, tentative@, dir@, self_id),
{
    let sa = render_section(PollOption::Accept, accepted, dir, self_id);
    let sd = render_section(PollOption::Decline, declined, dir, self_id);
    let st = render_section(PollOption::Tentative, tentative, dir, self_id);
    let r = String::from_str("_ _\n").concat(sa.as_str()).concat("\n").concat(sd.as_str()).concat(
        "\n",
    ).concat(st.as_str()).concat("\n").concat("_ _\n");
    proof {
        reveal_strlit("\n");
        assert("\n"@ =~= seq!['\n']);
        assert(r@ =~= spec_render(accepted@, declined@, tentative@, dir@, self_id));
    }
    r
}

/// A rendered section excludes `self_id` and counts everyone else: with the
/// distinct ids the platform guarantees per reaction, the section count is
/// the roster's size, less one exactly where `self_id` is in the roster.
pub proof fn lemma_visible_count(s: Seq<Participant>, self_id: u64)
    requires
        distinct_ids(s),
    ensures
        spec_visible_count(s, self_id) == s.len() - (if ids_of(s).contains(self_id) {
            1int
        } else {
            0int
        }),
    decreases s.len(),
{
    if s.len() == 0 {
        assert(!ids_of(s).contains(self_id));
    } else {
        let rest = s.drop_first();
        assert(distinct_ids(rest)) by {
            assert(forall|i: int, j: int|
                0 <= i < j < rest.len() ==> rest[i].id != rest[j].id) by {
                assert(forall|i: int| 0 <= i < rest.len() ==> rest[i] == s[i + 1]);
            }
        }
        lemma_visible_count(rest, self_id);
        if s[0].id == self_id {
            assert(ids_of(s).contains(self_id)) by {
                assert(ids_of(s)[0] == self_id);
            }
            assert(!ids_of(rest).contains(self_id)) by {
                if ids_of(rest).contains(self_id) {
                    let k = choose|k: int|
                        0 <= k < ids_of(rest).len() && ids_of(rest)[k] == self_id;
                    assert(rest[k].id == self_id);
                    assert(s[k + 1].id == self_id);
                    assert(s[0].id != s[k + 1].id);
                }
            }
        } else {
            assert(ids_of(s).contains(self_id) == ids_of(rest).contains(self_id)) by {
                if ids_of(rest).contains(self_id) {
                    let k = choose|k: int|
                        0 <= k < ids_of(rest).len() && ids_of(rest)[k] == self_id;
                    assert(ids_of(s)[k + 1] == rest[k].id);
                }
                if ids_of(s).contains(self_id) {
                    let k = choose|k: int| 0 <= k < ids_of(s).len() && ids_of(s)[k] == self_id;
                    assert(s[k].id == self_id);
                    assert(k != 0);
                    assert(ids_of(rest)[k - 1] == rest[k - 1].id);
                }
            }
        }
    }
}

/// The rendered body's three ordered sections count |A|, |D| and |T| less
/// the bot's own seed reaction wherever it is present: the count each header
/// carries is the roster's size minus its intersection with `{self_id}`.
pub proof fn lemma_render_section_counts(
    a: Seq<Participant>,
    d: Seq<Participant>,
    t: Seq<Participant>,
    self_id: u64,
)
    requires
        distinct_ids(a),
        distinct_ids(d),
        distinct_ids(t),
    ensures
        spec_visible_count(a, self_id) == a.len() - (if ids_of(a).contains(self_id) {
            1int
        } else {
            0int
        }),
        spec_visible_count(d, self_id) == d.len() - (if ids_of(d).contains(self_id) {
            1int
        } else {
            0int
        }),
        spec_visible_count(t, self_id) == t.len() - (if ids_of(t).contains(self_id) {
            1int
        } else {
            0int
        }),
{
    lemma_visible_count(a, self_id);
    lemma_visible_count(d, self_id);
    lemma_visible_count(t, self_id);
}

/// Rendering is idempotent: the renderer's contract pins its result to a
/// single function of its inputs, so two renders of identical inputs are
/// byte-identical.
pub proof fn lemma_render_idempotent(
    r1: Seq<char>,
    r2: Seq<char>,
    a: Seq<Participant>,
    d: Seq<Participant>,
    t: Seq<Participant>,
    dir: Seq<NickEntry>,
    self_id: u64,
)
    requires
        r1 == spec_render(a, d, t, dir, self_id),
        r2 == spec_render(a, d, t, dir, self_id),
    ensures
        r1 == r2,
{
}

} // verus!
