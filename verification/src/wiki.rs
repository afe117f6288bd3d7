//! The decisions of the wiki client: when a token is fetched anew, and what
//! an edit says. Talking to the wiki is left to the caller.
use vstd::prelude::*;
use crate::text::{chars_of, push_text, string_of, trim, trim_end_at, trim_start_at};

verus! {

/// The number of seconds for which a token is used.
pub const TOKEN_LIFETIME: u64 = 120;

/// The number of uses after which the client logs in anew.
pub const TOKEN_USES: u8 = 128;

/// What the client does when it needs a token.
#[derive(Clone, Copy, Debug, PartialEq, Eq, Structural)]
pub enum TokenAction {
    /// Use the token at hand.
    Reuse,
    /// Fetch a new token.
    Fetch,
    /// Log in, start counting anew, and fetch a new token.
    LoginAndFetch,
}

/// Decides what the client does when it needs a token: the token at hand is
/// used while it is younger than the lifetime and has been used less often
/// than the limit; at the limit the client logs in anew.
pub fn token_action(has_token: bool, age_in_seconds: u64, uses: u8) -> (action: TokenAction)
    ensures
        action == token_action_of(has_token, age_in_seconds, uses),
{
    if has_token && age_in_seconds < TOKEN_LIFETIME && uses < TOKEN_USES {
        TokenAction::Reuse
    } else if uses >= TOKEN_USES {
        TokenAction::LoginAndFetch
    } else {
        TokenAction::Fetch
    }
}

/// The decision of [`token_action`], as a function.
pub open spec fn token_action_of(has_token: bool, age_in_seconds: u64, uses: u8) -> TokenAction {
    if has_token && age_in_seconds < TOKEN_LIFETIME && uses < TOKEN_USES {
        TokenAction::Reuse
    } else if uses >= TOKEN_USES {
        TokenAction::LoginAndFetch
    } else {
        TokenAction::Fetch
    }
}

/// The number of uses after an action and the request that follows it: one
/// after a new login, and one more than before otherwise.
pub fn uses_after(action: TokenAction, uses: u8) -> (after: u8)
    requires
        uses < u8::MAX,
    ensures
        after == if action == TokenAction::LoginAndFetch {
            1
        } else {
            uses + 1
        },
{
    match action {
        TokenAction::LoginAndFetch => 1,
        _ => uses + 1,
    }
}

/// The count of uses never passes the limit: where it is at most the limit
/// before a request, it is at most the limit after it.
pub proof fn lemma_uses_stay_within_limit(has_token: bool, age_in_seconds: u64, uses: u8)
    requires
        uses <= TOKEN_USES,
    ensures
        (if token_action_of(has_token, age_in_seconds, uses) == TokenAction::LoginAndFetch {
            1
        } else {
            uses + 1
        }) <= TOKEN_USES,
{
}

/// Whether a page can be edited under `title`: not where the title is empty
/// but for whitespace.
pub fn has_title(title: &str) -> (yes: bool)
    ensures
        yes == (trim(title@).len() > 0),
{
    let chars = chars_of(title);
    assert(chars@.subrange(0, chars@.len() as int) =~= chars@);
    let start = trim_start_at(&chars, 0, chars.len());
    let end = trim_end_at(&chars, start, chars.len());
    start < end
}

/// The summary of an edit of the page `title`.
pub fn edit_summary(title: &str) -> (summary: String)
    ensures
        summary@ == "Add/edit "@ + title@,
{
    let mut out: Vec<char> = Vec::new();
    push_text(&mut out, "Add/edit ");
    push_text(&mut out, title);
    string_of(&out)
}

/// The text of a page that redirects to `target_title`.
pub fn redirect(target_title: &str) -> (text: String)
    ensures
        text@ == "#REDIRECT [["@ + target_title@ + "]]"@,
{
    let mut out: Vec<char> = Vec::new();
    push_text(&mut out, "#REDIRECT [[");
    push_text(&mut out, target_title);
    push_text(&mut out, "]]");
    string_of(&out)
}

} // verus!
