//! The pieces of message text that serenity computes: content normalization
//! (mention spam, invite links and markdown neutralized) and user mentions.
//! These are the crate's trusted boundary to serenity's text building; all
//! assembly around them is verified.

use vstd::prelude::*;

use serenity::model::mention::Mentionable;

verus! {

/// What serenity makes of `s` when pushed as safe plain text: mention spam
/// and invite links neutralized, markdown characters escaped.  The result
/// depends on the characters of `s` alone.
pub uninterp spec fn inline_normalized(s: Seq<char>) -> Seq<char>;

/// What serenity makes of `s` inside a safe bold span: mention spam and
/// invite links neutralized, inner double asterisks blanked.  The result
/// depends on the characters of `s` alone.
pub uninterp spec fn bold_normalized(s: Seq<char>) -> Seq<char>;

/// Relies on serenity's MessageBuilder::push_safe: the built text is the
/// normalized content and nothing else.
#[verifier::external_body]
pub fn safe_content(s: &str) -> (r: String)
    ensures
        r@ == inline_normalized(s@),
{
    let mut b = serenity::utils::MessageBuilder::new();
    b.push_safe(s);
    b.build()
}

/// Relies on serenity's MessageBuilder::push_bold_line_safe: the built text
/// is two asterisks, the normalized content, two asterisks and a newline.
#[verifier::external_body]
pub fn bold_line_safe(s: &str) -> (r: String)
    ensures
        r@ == seq!['*', '*'] + bold_normalized(s@) + seq!['*', '*', '\n'],
{
    let mut b = serenity::utils::MessageBuilder::new();
    b.push_bold_line_safe(s);
    b.build()
}

/// The view of a user mention, as the verified text builders speak of it.
pub open spec fn spec_mention(id: u64) -> Seq<char> {
    seq!['<', '@'] + crate::digits::dec_str(id as nat) + seq!['>']
}

/// Relies on serenity's mention rendering for users (Mention's Display):
/// "<@", the id in decimal, ">".  The id constructor refuses zero, so zero
/// is kept out by the precondition.
#[verifier::external_body]
pub fn user_mention(id: u64) -> (r: String)
    requires
        id != 0,
    ensures
        r@ == spec_mention(id),
{
    serenity::model::id::UserId::new(id).mention().to_string()
}

} // verus!
