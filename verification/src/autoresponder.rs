use vstd::prelude::*;
use vstd::string::StringExecFns;

use crate::text::{contains_seq, contains_str, is_prefix_of, starts_with_str, str_eq};

verus! {

/// What case folding makes of a text. Folding reads only the characters of
/// its input, so its result is a function of them alone.
pub uninterp spec fn lower_of(s: Seq<char>) -> Seq<char>;

/// Relies on `str::to_lowercase`: the folded text is computed from the
/// characters of the input alone.
#[verifier::external_body]
fn lowercase(s: &str) -> (r: String)
    ensures
        r@ == lower_of(s@),
{
    s.to_lowercase()
}

/// The ordered decision table over a message: the original text for the
/// case-sensitive triggers, its case-folded form for the insensitive ones.
/// The first matching trigger decides, and at most one reply is produced;
/// the moderator-gated triggers at the bottom are only tested for a sender
/// holding the moderator role. No match produces no reply.
pub open spec fn auto_reply(content: Seq<char>, lowered: Seq<char>, is_moderator: bool)
    -> Option<Seq<char>> {
    if content == "wkjfneasdf"@ {
        Some("That's not a word, but rather an oddly specific keyboard mash. Good job!"@)
    } else if content == "test"@ {
        Some("turing"@)
    } else if is_prefix_of("f"@, lowered) {
        Some(":regional_indicator_f:"@)
    } else if is_prefix_of("^^ "@, content) || content == "^^"@ {
        Some("^u^"@)
    } else if is_prefix_of("\\o/"@, content) {
        Some("https://imgur.com/qJYq4Xn"@)
    } else if is_prefix_of("crab"@, lowered) {
        Some("https://tenor.com/view/crab-safe-dance-gif-13211112"@)
    } else if is_prefix_of("sock ruse"@, lowered) {
        Some("it was a DISTACTION"@)
    } else if is_prefix_of("what time is it?"@, lowered) {
        Some("https://tenor.com/view/pizza-time-its-delivery-gif-13167414"@)
    } else if contains_seq("radio lags"@, lowered) || contains_seq(
        "radio is lagging"@,
        lowered,
    ) {
        Some("<@84774207140945920>"@)
    } else if is_moderator && is_prefix_of("chirp"@, content) {
        Some("chirp chirp!"@)
    } else if is_moderator && is_prefix_of("bark"@, content) {
        Some("bork"@)
    } else if is_moderator && is_prefix_of("bear"@, content) {
        Some(":bear:"@)
    } else {
        None
    }
}

/// One owned reply.
fn owned(s: &str) -> (r: String)
    ensures
        r@ == s@,
{
    let mut r = String::new();
    r.append(s);
    r
}

/// Walks the decision table for a message whose case-folded form the caller
/// already holds.
pub fn response_for(content: &str, lowered: &str, is_moderator: bool) -> (r: Option<String>)
    ensures
        match r {
            Some(s) => auto_reply(content@, lowered@, is_moderator) == Some(s@),
            None => auto_reply(content@, lowered@, is_moderator) is None,
        },
{
    if str_eq(content, "wkjfneasdf") {
        Some(owned("That's not a word, but rather an oddly specific keyboard mash. Good job!"))
    } else if str_eq(content, "test") {
        Some(owned("turing"))
    } else if starts_with_str(lowered, "f") {
        Some(owned(":regional_indicator_f:"))
    } else if starts_with_str(content, "^^ ") || str_eq(content, "^^") {
        Some(owned("^u^"))
    } else if starts_with_str(content, "\\o/") {
        Some(owned("https://imgur.com/qJYq4Xn"))
    } else if starts_with_str(lowered, "crab") {
        Some(owned("https://tenor.com/view/crab-safe-dance-gif-13211112"))
    } else if starts_with_str(lowered, "sock ruse") {
        Some(owned("it was a DISTACTION"))
    } else if starts_with_str(lowered, "what time is it?") {
        Some(owned("https://tenor.com/view/pizza-time-its-delivery-gif-13167414"))
    } else if contains_str(lowered, "radio lags") || contains_str(lowered, "radio is lagging") {
        Some(owned("<@84774207140945920>"))
    } else if is_moderator && starts_with_str(content, "chirp") {
        Some(owned("chirp chirp!"))
    } else if is_moderator && starts_with_str(content, "bark") {
        Some(owned("bork"))
    } else if is_moderator && starts_with_str(content, "bear") {
        Some(owned(":bear:"))
    } else {
        None
    }
}

/// Decides the reply for an incoming message: at most one, the first
/// matching trigger's. Messages from bots and messages outside a server
/// draw no reply; otherwise the decision table runs on the text and its
/// case-folded form.
pub fn handle_message(content: &str, author_is_bot: bool, in_guild: bool, is_moderator: bool)
    -> (r: Option<String>)
    ensures
        author_is_bot || !in_guild ==> r is None,
        !(author_is_bot || !in_guild) ==> match r {
            Some(s) => auto_reply(content@, lower_of(content@), is_moderator) == Some(s@),
            None => auto_reply(content@, lower_of(content@), is_moderator) is None,
        },
{
    if author_is_bot || !in_guild {
        return None;
    }
    let lowered = lowercase(content);
    response_for(content, lowered.as_str(), is_moderator)
}

} // verus!
