//! The loopback redirect: reading the one request that the browser sends
//! back after the user has answered, and answering it.
//!
//! The request line has the form `METHOD TARGET VERSION`. The target's query
//! is a list of `key=value` pairs separated by `&`; the values are
//! percent-encoded.

use crate::error::{OAuthError, OAuthErrorView};
use crate::text::{
    chars_of, concat, decimal, decimal_digits, find_char, index_of, lemma_find_char_bounds,
    opt_view, run_end, skip_run, slice_chars, str_eq, substring,
};
use vstd::prelude::*;
use vstd::string::*;
use vstd::utf8::*;

verus! {

/// The local port on which the redirect is awaited.
pub const OAUTH_REDIRECT_PORT: u16 = 42813;

/// How long the redirect is awaited, in seconds.
pub const REDIRECT_TIMEOUT_SECS: u64 = 180;

/// The redirect URI registered with the provider.
pub open spec fn spec_redirect_uri() -> Seq<char> {
    "http://localhost:42813/oauth2callback"@
}

/// The redirect URI registered with the provider.
pub fn redirect_uri() -> (uri: String)
    ensures
        uri@ == spec_redirect_uri(),
{
    "http://localhost:42813/oauth2callback".to_owned()
}

// ---------------------------------------------------------------------------
// The request line
// ---------------------------------------------------------------------------

/// The request line: what stands before the first line feed.
pub open spec fn spec_request_line(request: Seq<char>) -> Seq<char> {
    request.take(find_char(request, '\n', 0))
}

/// The target of a request line: its second run of characters that are not
/// white space.
pub open spec fn spec_request_target(line: Seq<char>) -> Option<Seq<char>> {
    let method_start = run_end(line, 0, true);
    let method_end = run_end(line, method_start, false);
    let target_start = run_end(line, method_end, true);
    let target_end = run_end(line, target_start, false);
    if target_start < line.len() {
        Some(line.subrange(target_start, target_end))
    } else {
        None
    }
}

/// The query of a target: what follows its first question mark.
pub open spec fn spec_query(target: Seq<char>) -> Option<Seq<char>> {
    let mark = find_char(target, '?', 0);
    if mark < target.len() {
        Some(target.skip(mark + 1))
    } else {
        None
    }
}

// ---------------------------------------------------------------------------
// Query parameters
// ---------------------------------------------------------------------------

/// What a percent-encoded text decodes to, as `urlencoding::decode` decodes
/// it; `None` where the decoded bytes are not UTF-8.
pub uninterp spec fn spec_percent_decode(text: Seq<char>) -> Option<Seq<char>>;

/// Calls `urlencoding::decode`.
#[verifier::external_body]
fn percent_decode(text: &str) -> (r: Option<String>)
    ensures
        opt_view(r) == spec_percent_decode(text@),
{
    match urlencoding::decode(text) {
        Ok(decoded) => Some(decoded.into_owned()),
        Err(_) => None,
    }
}

/// The value of a parameter: its text percent-decoded, or the text as it
/// stands where that fails.
pub open spec fn spec_param_value(raw: Seq<char>, decoded: Option<Seq<char>>) -> Seq<char> {
    match decoded {
        Some(text) => text,
        None => raw,
    }
}

/// Computes `spec_param_value`.
pub fn param_value(raw: String, decoded: Option<String>) -> (value: String)
    ensures
        value@ == spec_param_value(raw@, opt_view(decoded)),
{
    match decoded {
        Some(text) => text,
        None => raw,
    }
}

/// The key of one `key=value` pair: what stands before its first equals
/// sign.
pub open spec fn spec_pair_key(pair: Seq<char>) -> Seq<char> {
    pair.take(find_char(pair, '=', 0))
}

/// The value of one `key=value` pair, decoded; empty where the pair has no
/// equals sign.
pub open spec fn spec_pair_value(pair: Seq<char>) -> Seq<char> {
    let sign = find_char(pair, '=', 0);
    if sign < pair.len() {
        spec_param_value(pair.skip(sign + 1), spec_percent_decode(pair.skip(sign + 1)))
    } else {
        Seq::empty()
    }
}

/// The value of the parameter `name` among the pairs of `query` that start
/// at or after `from`. Of several pairs with that key the last one counts.
pub open spec fn spec_param_from(query: Seq<char>, from: int, name: Seq<char>) -> Option<Seq<char>>
    decreases query.len() - from,
    via spec_param_from_terminates
{
    if 0 <= from <= query.len() {
        let end = find_char(query, '&', from);
        let pair = query.subrange(from, end);
        let own = if spec_pair_key(pair) == name {
            Some(spec_pair_value(pair))
        } else {
            None
        };
        if end < query.len() {
            match spec_param_from(query, end + 1, name) {
                Some(value) => Some(value),
                None => own,
            }
        } else {
            own
        }
    } else {
        None
    }
}

#[via_fn]
proof fn spec_param_from_terminates(query: Seq<char>, from: int, name: Seq<char>) {
    if 0 <= from <= query.len() {
        lemma_find_char_bounds(query, '&', from);
    }
}

/// The value of a parameter of a query.
pub open spec fn spec_query_param(query: Seq<char>, name: Seq<char>) -> Option<Seq<char>> {
    spec_param_from(query, 0, name)
}

fn pair_value(pair: &Vec<char>, sign: usize) -> (value: String)
    requires
        sign == find_char(pair@, '=', 0),
        sign <= pair.len(),
    ensures
        value@ == spec_pair_value(pair@),
{
    if sign < pair.len() {
        let raw = substring(pair, sign + 1, pair.len());
        assert(pair@.subrange(sign + 1, pair.len() as int) == pair@.skip(sign + 1));
        let decoded = percent_decode(raw.as_str());
        param_value(raw, decoded)
    } else {
        String::new()
    }
}

/// Reads one parameter out of a query.
pub fn query_param(query: &str, name: &str) -> (value: Option<String>)
    ensures
        opt_view(value) == spec_query_param(query@, name@),
{
    let q = chars_of(query);
    let mut found: Option<String> = None;
    let mut from: usize = 0;
    let mut more = true;
    while more
        invariant
            q@ == query@,
            from <= q.len(),
            more ==> spec_query_param(query@, name@) == (match spec_param_from(
                q@,
                from as int,
                name@,
            ) {
                Some(v) => Some(v),
                None => opt_view(found),
            }),
            !more ==> spec_query_param(query@, name@) == opt_view(found),
        decreases q.len() - from + (if more { 1int } else { 0int }),
    {
        let end = index_of(&q, '&', from);
        let pair = slice_chars(&q, from, end);
        let sign = index_of(&pair, '=', 0);
        let key = substring(&pair, 0, sign);
        assert(pair@.subrange(0, sign as int) == pair@.take(sign as int));
        if str_eq(key.as_str(), name) {
            found = Some(pair_value(&pair, sign));
        }
        if end < q.len() {
            from = end + 1;
        } else {
            more = false;
        }
    }
    found
}

// ---------------------------------------------------------------------------
// The callback
// ---------------------------------------------------------------------------

/// The two parameters of the callback that matter.
#[derive(Debug)]
pub struct CallbackParams {
    pub code: Option<String>,
    pub state: Option<String>,
}

/// The mathematical content of `CallbackParams`.
pub struct CallbackParamsView {
    pub code: Option<Seq<char>>,
    pub state: Option<Seq<char>>,
}

impl View for CallbackParams {
    type V = CallbackParamsView;

    open spec fn view(&self) -> CallbackParamsView {
        CallbackParamsView { code: opt_view(self.code), state: opt_view(self.state) }
    }
}

/// The parameters that a request carries: those of the query of the target
/// of its request line.
pub open spec fn spec_callback_params(request: Seq<char>) -> CallbackParamsView {
    match spec_request_target(spec_request_line(request)) {
        Some(target) => match spec_query(target) {
            Some(query) => CallbackParamsView {
                code: spec_query_param(query, "code"@),
                state: spec_query_param(query, "state"@),
            },
            None => CallbackParamsView { code: None, state: None },
        },
        None => CallbackParamsView { code: None, state: None },
    }
}

/// Reads `code` and `state` out of the raw request.
pub fn parse_callback(request: &str) -> (params: CallbackParams)
    ensures
        params@ == spec_callback_params(request@),
{
    let all = chars_of(request);
    let line_end = index_of(&all, '\n', 0);
    let line = slice_chars(&all, 0, line_end);
    assert(all@.subrange(0, line_end as int) == all@.take(line_end as int));
    let method_start = skip_run(&line, 0, true);
    let method_end = skip_run(&line, method_start, false);
    let target_start = skip_run(&line, method_end, true);
    let target_end = skip_run(&line, target_start, false);
    if target_start >= line.len() {
        return CallbackParams { code: None, state: None };
    }
    let target = slice_chars(&line, target_start, target_end);
    let mark = index_of(&target, '?', 0);
    if mark >= target.len() {
        return CallbackParams { code: None, state: None };
    }
    let query = substring(&target, mark + 1, target.len());
    assert(target@.subrange(mark + 1, target.len() as int) == target@.skip(mark + 1));
    let code = query_param(query.as_str(), "code");
    let state = query_param(query.as_str(), "state");
    CallbackParams { code, state }
}

/// What the listener does with a callback: the bytes to write back, and what
/// the attempt comes to.
#[derive(Debug)]
pub struct CallbackReply {
    pub response: String,
    pub outcome: Result<String, OAuthError>,
}

/// The mathematical content of a `CallbackReply`.
pub struct CallbackReplyView {
    pub response: Seq<char>,
    pub outcome: Result<Seq<char>, OAuthErrorView>,
}

impl View for CallbackReply {
    type V = CallbackReplyView;

    open spec fn view(&self) -> CallbackReplyView {
        CallbackReplyView {
            response: self.response@,
            outcome: match self.outcome {
                Ok(code) => Ok(code@),
                Err(e) => Err(e@),
            },
        }
    }
}

/// Whether the callback carries the state that was sent out.
pub open spec fn state_matches(params: CallbackParamsView, expected_state: Seq<char>) -> bool {
    params.state == Some(expected_state)
}

/// An HTTP response with an HTML body.
pub open spec fn spec_http_response(status_line: Seq<char>, body: Seq<char>) -> Seq<char> {
    status_line + "\r\ncontent-type: text/html; charset=utf-8\r\ncontent-length: "@
        + decimal_digits(encode_utf8(body).len()) + "\r\n\r\n"@ + body
}

/// The status line of the reply: success only for the right state together
/// with a code.
pub open spec fn spec_status_line(params: CallbackParamsView, expected_state: Seq<char>) -> Seq<
    char,
> {
    if state_matches(params, expected_state) && params.code is Some {
        "HTTP/1.1 200 OK"@
    } else {
        "HTTP/1.1 400 Bad Request"@
    }
}

/// The page shown in the browser.
pub open spec fn spec_reply_page(params: CallbackParamsView, expected_state: Seq<char>) -> Seq<
    char,
> {
    if state_matches(params, expected_state) {
        "<html><body><h1>You may close this window.</h1></body></html>"@
    } else {
        "<html><body><h1>Invalid OAuth state.</h1></body></html>"@
    }
}

/// What the attempt comes to. A wrong or missing state fails it whatever
/// else the callback carries, and no code is handed on.
pub open spec fn spec_callback_outcome(
    params: CallbackParamsView,
    expected_state: Seq<char>,
) -> Result<Seq<char>, OAuthErrorView> {
    if !state_matches(params, expected_state) {
        Err(OAuthErrorView::Other("OAuth state mismatch"@))
    } else {
        match params.code {
            Some(code) => Ok(code),
            None => Err(OAuthErrorView::Other("Missing authorisation code"@)),
        }
    }
}

/// The reply to a callback.
pub open spec fn spec_callback_reply(
    params: CallbackParamsView,
    expected_state: Seq<char>,
) -> CallbackReplyView {
    CallbackReplyView {
        response: spec_http_response(
            spec_status_line(params, expected_state),
            spec_reply_page(params, expected_state),
        ),
        outcome: spec_callback_outcome(params, expected_state),
    }
}

/// Writes an HTTP response with an HTML body.
pub fn http_response(status_line: &str, body: &str) -> (response: String)
    ensures
        response@ == spec_http_response(status_line@, body@),
{
    let mut response = concat(
        status_line,
        "\r\ncontent-type: text/html; charset=utf-8\r\ncontent-length: ",
    );
    let length = decimal(body.as_bytes().len());
    response.append(length.as_str());
    response.append("\r\n\r\n");
    response.append(body);
    response
}

/// Judges the parameters of a callback against the state that was sent out.
pub fn judge_callback(params: CallbackParams, expected_state: &str) -> (reply: CallbackReply)
    ensures
        reply@ == spec_callback_reply(params@, expected_state@),
{
    let state_ok = match &params.state {
        Some(state) => str_eq(state.as_str(), expected_state),
        None => false,
    };
    let status_line = if state_ok && params.code.is_some() {
        "HTTP/1.1 200 OK"
    } else {
        "HTTP/1.1 400 Bad Request"
    };
    let page = if state_ok {
        "<html><body><h1>You may close this window.</h1></body></html>"
    } else {
        "<html><body><h1>Invalid OAuth state.</h1></body></html>"
    };
    let response = http_response(status_line, page);
    let outcome = if !state_ok {
        Err(OAuthError::Other("OAuth state mismatch".to_owned()))
    } else {
        match params.code {
            Some(code) => Ok(code),
            None => Err(OAuthError::Other("Missing authorisation code".to_owned())),
        }
    };
    CallbackReply { response, outcome }
}

/// Handles the one request of an authorization attempt: reads its
/// parameters, checks the state, and says what to answer and whether the
/// attempt has a code.
pub fn wait_for_code(request: &str, expected_state: &str) -> (reply: CallbackReply)
    ensures
        reply@ == spec_callback_reply(spec_callback_params(request@), expected_state@),
{
    judge_callback(parse_callback(request), expected_state)
}

/// A callback whose state is not the one sent out never yields a code, valid
/// though the code it carries may be.
pub proof fn lemma_state_mismatch_yields_no_code(
    params: CallbackParamsView,
    expected_state: Seq<char>,
)
    requires
        params.state != Some(expected_state),
    ensures
        spec_callback_reply(params, expected_state).outcome is Err,
        spec_callback_reply(params, expected_state).outcome == Err::<
            Seq<char>,
            OAuthErrorView,
        >(OAuthErrorView::Other("OAuth state mismatch"@)),
{
}

} // verus!
