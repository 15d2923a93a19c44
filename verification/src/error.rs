//! The failures of the authorization session, and how an error chain is
//! written out for the user.

use crate::text::concat;
use vstd::prelude::*;

verus! {

/// Why no access token could be had.
#[derive(Debug)]
pub enum OAuthError {
    /// No credential is valid, and none can be refreshed.
    NotAuthorised,
    /// The client configuration is missing or wrong; the text says how.
    Misconfigured(String),
    /// A failure of the network, of the transport or of parsing, a state
    /// mismatch, or a timeout.
    Other(String),
}

/// The mathematical content of an `OAuthError`.
pub enum OAuthErrorView {
    NotAuthorised,
    Misconfigured(Seq<char>),
    Other(Seq<char>),
}

impl View for OAuthError {
    type V = OAuthErrorView;

    open spec fn view(&self) -> OAuthErrorView {
        match self {
            OAuthError::NotAuthorised => OAuthErrorView::NotAuthorised,
            OAuthError::Misconfigured(reason) => OAuthErrorView::Misconfigured(reason@),
            OAuthError::Other(text) => OAuthErrorView::Other(text@),
        }
    }
}

impl Clone for OAuthError {
    fn clone(&self) -> (r: Self)
        ensures
            r@ == self@,
    {
        match self {
            OAuthError::NotAuthorised => OAuthError::NotAuthorised,
            OAuthError::Misconfigured(reason) => OAuthError::Misconfigured(reason.clone()),
            OAuthError::Other(text) => OAuthError::Other(text.clone()),
        }
    }
}

/// The text of an error.
pub open spec fn spec_error_message(error: OAuthErrorView) -> Seq<char> {
    match error {
        OAuthErrorView::NotAuthorised => "not authorised"@,
        OAuthErrorView::Misconfigured(reason) => "oauth misconfigured: "@ + reason,
        OAuthErrorView::Other(text) => text,
    }
}

impl OAuthError {
    /// The text of the error, as it is shown to the user.
    pub fn message(&self) -> (text: String)
        ensures
            text@ == spec_error_message(self@),
    {
        match self {
            OAuthError::NotAuthorised => "not authorised".to_owned(),
            OAuthError::Misconfigured(reason) => concat("oauth misconfigured: ", reason.as_str()),
            OAuthError::Other(text) => text.clone(),
        }
    }
}

/// The views of a list of strings.
pub open spec fn texts(list: Seq<String>) -> Seq<Seq<char>> {
    list.map_values(|s: String| s@)
}

/// An error's text followed by the texts of its causes, outermost first,
/// each on a line of its own.
pub open spec fn spec_stringify_error(message: Seq<char>, causes: Seq<Seq<char>>) -> Seq<char>
    decreases causes.len(),
{
    if causes.len() == 0 {
        message
    } else {
        spec_stringify_error(message, causes.drop_last()) + "\nCaused by: "@ + causes.last()
    }
}

/// Writes an error out with the chain of its causes.
pub fn stringify_error(message: &str, causes: &Vec<String>) -> (text: String)
    ensures
        text@ == spec_stringify_error(message@, texts(causes@)),
{
    let mut text = message.to_owned();
    let mut i: usize = 0;
    while i < causes.len()
        invariant
            i <= causes.len(),
            text@ == spec_stringify_error(message@, texts(causes@).take(i as int)),
        decreases causes.len() - i,
    {
        let line = concat("\nCaused by: ", causes[i].as_str());
        text = concat(text.as_str(), line.as_str());
        assert(texts(causes@).take(i + 1).drop_last() == texts(causes@).take(i as int));
        assert(texts(causes@).take(i + 1).last() == causes@[i as int]@);
        i += 1;
    }
    assert(texts(causes@).take(causes.len() as int) == texts(causes@));
    text
}

} // verus!
