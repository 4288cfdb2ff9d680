//! Which endpoint a request URL addresses.

use crate::text::starts_with;
use vstd::prelude::*;

verus! {

/// Requests whose URL begins with this reach the token endpoint.
pub const TOKEN_PREFIX: &'static str = "/token";

/// Requests whose URL begins with this reach the callback endpoint.
pub const CALLBACK_PREFIX: &'static str = "/callback";

/// How the intermediate page begins the URL that it submits the fragment to.
pub const TOKEN_SUBMISSION_PREFIX: &'static str = "/token?";

/// The endpoint that a request URL addresses.
#[derive(Clone, Copy, Debug, PartialEq, Eq, Structural)]
pub enum Route {
    /// The URL begins with `/token`: the request carries the captured data.
    Token,
    /// The URL begins with `/callback`: the browser wants the intermediate
    /// page.
    Callback,
    /// Anything else: the request gets no response at all.
    Unmatched,
}

/// The route of a URL. The token prefix is tried first.
pub open spec fn route_of(url: Seq<char>) -> Route {
    if TOKEN_PREFIX@.is_prefix_of(url) {
        Route::Token
    } else if CALLBACK_PREFIX@.is_prefix_of(url) {
        Route::Callback
    } else {
        Route::Unmatched
    }
}

/// Routes a request URL (path and query string).
pub fn classify(url: &str) -> (route: Route)
    ensures
        route == route_of(url@),
{
    if starts_with(url, TOKEN_PREFIX) {
        Route::Token
    } else if starts_with(url, CALLBACK_PREFIX) {
        Route::Callback
    } else {
        Route::Unmatched
    }
}

/// No URL begins with both prefixes, so the order in which they are tried
/// decides nothing.
pub proof fn lemma_prefixes_exclude_each_other(url: Seq<char>)
    ensures
        !(TOKEN_PREFIX@.is_prefix_of(url) && CALLBACK_PREFIX@.is_prefix_of(url)),
{
    reveal_strlit("/token");
    reveal_strlit("/callback");
    if TOKEN_PREFIX@.is_prefix_of(url) && CALLBACK_PREFIX@.is_prefix_of(url) {
        assert(url.subrange(0, 9)[1] == 'c');
    }
}

/// Whatever fragment the intermediate page finds, the URL that it submits,
/// `/token?` followed by the fragment, is routed to the token endpoint.
pub proof fn lemma_submission_reaches_token(fragment: Seq<char>)
    ensures
        route_of(TOKEN_SUBMISSION_PREFIX@ + fragment) == Route::Token,
{
    reveal_strlit("/token");
    reveal_strlit("/token?");
}

/// A URL that begins with the callback path is routed to the callback
/// endpoint, whatever follows the path.
pub proof fn lemma_callback_path_reaches_callback(rest: Seq<char>)
    ensures
        route_of(CALLBACK_PREFIX@ + rest) == Route::Callback,
{
    reveal_strlit("/callback");
    lemma_prefixes_exclude_each_other(CALLBACK_PREFIX@ + rest);
}

} // verus!
