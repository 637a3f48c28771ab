//! What the two background tasks decide: when to fetch the developer token
//! again, and what the bot says it is doing.

use crate::pipeline::FetchError;
use crate::text::{decimal, decimal_text, owned};
use vstd::prelude::*;
use vstd::string::*;

verus! {

/// The seconds between two fetches of the developer token.
pub const TOKEN_REFRESH_SECS: u64 = 1800;

/// The seconds between two updates of the status line.
pub const STATUS_REFRESH_SECS: u64 = 10;

/// The answer of the token service.
#[derive(Debug, Clone, PartialEq)]
pub struct TokenBody {
    pub token: String,
}

/// What the token task does after asking the token service.
#[derive(Debug, Clone, PartialEq)]
pub enum TokenStep {
    /// Keep the token as it is, and stop asking.
    Stop,
    /// Store this token, and ask again after so many seconds.
    Store { token: String, wait_secs: u64 },
}

/// The mathematical content of a `TokenStep`.
pub enum TokenStepView {
    Stop,
    Store { token: Seq<char>, wait_secs: u64 },
}

impl View for TokenStep {
    type V = TokenStepView;

    open spec fn view(&self) -> TokenStepView {
        match self {
            TokenStep::Stop => TokenStepView::Stop,
            TokenStep::Store { token, wait_secs } => TokenStepView::Store {
                token: token@,
                wait_secs: *wait_secs,
            },
        }
    }
}

/// What the token task does after asking the token service: with an
/// answer it stores the token and waits, without one it stops.
pub fn token_step(reply: Option<TokenBody>) -> (step: TokenStep)
    ensures
        step@ == (match reply {
            Some(body) => TokenStepView::Store {
                token: body.token@,
                wait_secs: TOKEN_REFRESH_SECS,
            },
            None => TokenStepView::Stop,
        }),
{
    match reply {
        Some(body) => TokenStep::Store { token: body.token, wait_secs: TOKEN_REFRESH_SECS },
        None => TokenStep::Stop,
    }
}

/// The credential that a request to the catalog carries.
pub open spec fn bearer_of(token: Seq<char>) -> Seq<char> {
    "Bearer "@ + token
}

/// The credential for the next request to the catalog, or `MissingToken`
/// as long as no token was fetched.
pub fn bearer(token: &Option<String>) -> (credential: Result<String, FetchError>)
    ensures
        match credential {
            Ok(text) => token.deep_view() is Some && text@ == bearer_of(token.deep_view()->0),
            Err(error) => token is None && error == FetchError::MissingToken,
        },
{
    match token {
        Some(token) => {
            let mut text = owned("Bearer ");
            text.append(token.as_str());
            Ok(text)
        },
        None => Err(FetchError::MissingToken),
    }
}

/// What the bot says it is listening to.
pub open spec fn status_of(total: nat) -> Seq<char> {
    "Cider | "@ + decimal(total) + " songs converted"@
}

/// What the bot says it is listening to, given the count of conversions.
pub fn status_text(total: u64) -> (status: String)
    ensures
        status@ == status_of(total as nat),
{
    let mut status = owned("Cider | ");
    status.append(decimal_text(total as u128).as_str());
    status.append(" songs converted");
    status
}

} // verus!
