//! The event classifier: decides whether a raw reaction-change notification
//! is in scope for the poll engine, and normalizes it if so.  Rejection is a
//! no-op result, never an error, and a filtered event triggers no further
//! work.

use vstd::prelude::*;

use crate::model::ChangeKind;
use crate::model::PollOption;
use crate::model::spec_glyph;

verus! {

/// The emoji of a raw reaction event: a unicode glyph, or a custom
/// guild-specific emoji, which the engine never tracks.
pub enum EmojiKind {
    Unicode(String),
    Custom,
}

/// A raw reaction-change notification, as the gateway reports it: the emoji,
/// the author of the reacted-to message, the guild the message lives in (if
/// any), the participant who acted (where the platform reports one) and the
/// kind of change.
pub struct ReactionEvent {
    pub emoji: EmojiKind,
    pub message_author: u64,
    pub guild_id: Option<u64>,
    pub user_id: Option<u64>,
    pub kind: ChangeKind,
}

/// Why an event was filtered out.
#[derive(Clone, Copy, PartialEq, Eq, Structural, Debug)]
pub enum FilterReason {
    CustomEmoji,
    UntrackedEmoji,
    ForeignAuthor,
    NoGuild,
}

/// An in-scope event, normalized for the engine: which option changed, the
/// hosting guild, the acting participant (present only for an addition) and
/// the change kind.
#[derive(Clone, Copy, PartialEq, Eq, Structural, Debug)]
pub struct NormalizedEvent {
    pub option: PollOption,
    pub guild_id: u64,
    pub acting: Option<u64>,
    pub kind: ChangeKind,
}

/// The classifier's verdict on a raw event.
pub enum Classified {
    Filtered(FilterReason),
    InScope(NormalizedEvent),
}

/// The option a unicode emoji stands for, if it is one of the three tracked
/// glyphs.
pub open spec fn spec_tracked(s: Seq<char>) -> Option<PollOption> {
    if s == spec_glyph(PollOption::Accept) {
        Some(PollOption::Accept)
    } else if s == spec_glyph(PollOption::Decline) {
        Some(PollOption::Decline)
    } else if s == spec_glyph(PollOption::Tentative) {
        Some(PollOption::Tentative)
    } else {
        None
    }
}

/// What the classifier decides: filtered when the emoji is custom, when it is
/// not one of the three tracked glyphs, when the reacted-to message is not
/// the bot's own, or when the event carries no guild — in that order — and
/// in-scope otherwise, with the acting participant kept only for additions.
pub open spec fn spec_classify(ev: ReactionEvent, self_id: u64) -> Classified {
    match ev.emoji {
        EmojiKind::Custom => Classified::Filtered(FilterReason::CustomEmoji),
        EmojiKind::Unicode(s) => match spec_tracked(s@) {
            None => Classified::Filtered(FilterReason::UntrackedEmoji),
            Some(opt) => if ev.message_author != self_id {
                Classified::Filtered(FilterReason::ForeignAuthor)
            } else {
                match ev.guild_id {
                    None => Classified::Filtered(FilterReason::NoGuild),
                    Some(g) => Classified::InScope(
                        NormalizedEvent {
                            option: opt,
                            guild_id: g,
                            acting: if ev.kind == ChangeKind::Added {
                                ev.user_id
                            } else {
                                None
                            },
                            kind: ev.kind,
                        },
                    ),
                }
            },
        },
    }
}

/// The option a unicode emoji stands for, if it is tracked.
pub fn tracked_option(s: &String) -> (r: Option<PollOption>)
    ensures
        r == spec_tracked(s@),
{
    if *s == String::from_str("\u{2705}") {
        Some(PollOption::Accept)
    } else if *s == String::from_str("\u{274C}") {
        Some(PollOption::Decline)
    } else if *s == String::from_str("\u{2754}") {
        Some(PollOption::Tentative)
    } else {
        None
    }
}

/// Classifies a raw reaction-change notification.  A filtered event is a
/// no-op: the engine is not invoked and no outbound call is made for it.
pub fn classify(ev: ReactionEvent, self_id: u64) -> (r: Classified)
    ensures
        r == spec_classify(ev, self_id),
{
    match &ev.emoji {
        EmojiKind::Custom => Classified::Filtered(FilterReason::CustomEmoji),
        EmojiKind::Unicode(s) => match tracked_option(s) {
            None => Classified::Filtered(FilterReason::UntrackedEmoji),
            Some(opt) => {
                if ev.message_author != self_id {
                    Classified::Filtered(FilterReason::ForeignAuthor)
                } else {
                    match ev.guild_id {
                        None => Classified::Filtered(FilterReason::NoGuild),
                        Some(g) => Classified::InScope(
                            NormalizedEvent {
                                option: opt,
                                guild_id: g,
                                acting: if ev.kind == ChangeKind::Added {
                                    ev.user_id
                                } else {
                                    None
                                },
                                kind: ev.kind,
                            },
                        ),
                    }
                }
            },
        },
    }
}

/// The no-op note the caller logs for a filtered event, word for word.
pub open spec fn spec_filter_note(reason: FilterReason) -> Seq<char> {
    match reason {
        FilterReason::CustomEmoji => "custom reaction"@,
        FilterReason::UntrackedEmoji => "ignored reaction"@,
        FilterReason::ForeignAuthor => "Reacted on someone else's message"@,
        FilterReason::NoGuild => "Nothing in reaction.guild_id"@,
    }
}

/// The note logged for a filtered event.
pub fn filter_note(reason: FilterReason) -> (r: String)
    ensures
        r@ == spec_filter_note(reason),
{
    match reason {
        FilterReason::CustomEmoji => String::from_str("custom reaction"),
        FilterReason::UntrackedEmoji => String::from_str("ignored reaction"),
        FilterReason::ForeignAuthor => String::from_str("Reacted on someone else's message"),
        FilterReason::NoGuild => String::from_str("Nothing in reaction.guild_id"),
    }
}

/// An event is filtered exactly when one of the four rejection grounds
/// holds: a custom emoji, an untracked glyph, a message the bot did not
/// write, or a missing guild context.
pub proof fn lemma_filtered_iff(ev: ReactionEvent, self_id: u64)
    ensures
        (spec_classify(ev, self_id) is Filtered) <==> ((ev.emoji is Custom) || (ev.emoji matches
            EmojiKind::Unicode(s) && spec_tracked(s@) is None) || ev.message_author != self_id
            || ev.guild_id is None),
{
}

} // verus!
