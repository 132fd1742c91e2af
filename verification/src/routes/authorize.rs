//! The redirect of an authorization request to the upstream provider.

use vstd::prelude::*;
use vstd::string::*;
use crate::config::{is_valid_scopemode, Config, ConfigView};
use crate::error::{AppError, AppErrorView};
use crate::http::{form_urlencode, form_urlencoded_text, is_reply, Reply, ReplyView};
use crate::text::{concat, opt_text, pair};

verus! {

/// What an authorization request asks for, as its query says it.
#[derive(Debug, Clone, PartialEq, Eq)]
pub struct AuthorizationRequest {
    pub client_id: String,
    pub redirect_uri: String,
    pub state: String,
    pub code_challenge: Option<String>,
    pub code_challenge_method: Option<String>,
}

/// An [`AuthorizationRequest`] with its texts as sequences of characters.
pub struct AuthorizationRequestView {
    pub client_id: Seq<char>,
    pub redirect_uri: Seq<char>,
    pub state: Seq<char>,
    pub code_challenge: Option<Seq<char>>,
    pub code_challenge_method: Option<Seq<char>>,
}

impl View for AuthorizationRequest {
    type V = AuthorizationRequestView;

    open spec fn view(&self) -> AuthorizationRequestView {
        AuthorizationRequestView {
            client_id: self.client_id@,
            redirect_uri: self.redirect_uri@,
            state: self.state@,
            code_challenge: opt_text(self.code_challenge),
            code_challenge_method: opt_text(self.code_challenge_method),
        }
    }
}

/// The value of the last pair named `name`, if there is one.
pub open spec fn last_value(pairs: Seq<(Seq<char>, Seq<char>)>, name: Seq<char>) -> Option<Seq<char>>
    decreases pairs.len(),
{
    if pairs.len() == 0 {
        None
    } else if pairs.last().0 == name {
        Some(pairs.last().1)
    } else {
        last_value(pairs.drop_last(), name)
    }
}

/// The text, or the empty text where there is none.
pub open spec fn or_empty(text: Option<Seq<char>>) -> Seq<char> {
    match text {
        Some(t) => t,
        None => Seq::empty(),
    }
}

/// The request that a query stands for. Of a parameter that occurs more
/// than once the last occurrence counts. The client, the redirect address
/// and the state are empty where the query does not name them.
pub open spec fn request_of(query: Seq<(Seq<char>, Seq<char>)>) -> AuthorizationRequestView {
    AuthorizationRequestView {
        client_id: or_empty(last_value(query, "client_id"@)),
        redirect_uri: or_empty(last_value(query, "redirect_uri"@)),
        state: or_empty(last_value(query, "state"@)),
        code_challenge: last_value(query, "code_challenge"@),
        code_challenge_method: last_value(query, "code_challenge_method"@),
    }
}

/// The scope that is asked of the upstream provider under a scope mode.
pub open spec fn upstream_scope(mode: Seq<char>) -> Seq<char> {
    if mode == "guilds"@ {
        "identify email guilds"@
    } else {
        "identify email"@
    }
}

/// The two parameters of the proof key, each only where the request has it.
pub open spec fn pkce_params(request: AuthorizationRequestView) -> Seq<(Seq<char>, Seq<char>)> {
    let challenge = match request.code_challenge {
        Some(value) => seq![("code_challenge"@, value)],
        None => Seq::empty(),
    };
    let method = match request.code_challenge_method {
        Some(value) => seq![("code_challenge_method"@, value)],
        None => Seq::empty(),
    };
    challenge + method
}

/// The parameters of the upstream authorization address, in order.
pub open spec fn authorize_params(config: ConfigView, mode: Seq<char>, request: AuthorizationRequestView) -> Seq<
    (Seq<char>, Seq<char>),
> {
    seq![
        ("client_id"@, config.client_id),
        ("redirect_uri"@, config.redirect_url),
        ("response_type"@, "code"@),
        ("scope"@, upstream_scope(mode)),
        ("state"@, request.state),
        ("prompt"@, "none"@),
    ] + pkce_params(request)
}

/// The upstream authorization address with the given parameters.
pub open spec fn authorize_location(params: Seq<(Seq<char>, Seq<char>)>) -> Seq<char> {
    "https://discord.com/oauth2/authorize?"@ + form_urlencoded_text(params)
}

/// The scope mode of a request: the one that its path names, or the empty
/// one where the path names none.
pub open spec fn named_mode(scopemode: Option<Seq<char>>) -> Seq<char> {
    or_empty(scopemode)
}

/// What an authorization request is answered with, given the scope mode
/// that its path names and its query, or the message with which its
/// address could not be read.
///
/// A scope mode other than the two valid ones is turned away first. Then a
/// request whose client or redirect address is not exactly the configured
/// one is turned away. Every other request is redirected to the upstream
/// authorization address.
pub open spec fn authorize_outcome(
    scopemode: Option<Seq<char>>,
    query: Result<Seq<(Seq<char>, Seq<char>)>, Seq<char>>,
    config: ConfigView,
) -> Result<ReplyView, AppErrorView> {
    let mode = named_mode(scopemode);
    if !is_valid_scopemode(mode) {
        Ok(ReplyView::BadRequest("Invalid scopemode"@))
    } else {
        match query {
            Err(detail) => Err(AppErrorView::Unexpected(detail)),
            Ok(pairs) => {
                let request = request_of(pairs);
                if request.client_id != config.client_id || request.redirect_uri
                    != config.redirect_url {
                    Ok(ReplyView::BadRequest("Bad request"@))
                } else {
                    Ok(ReplyView::Redirect(authorize_location(authorize_params(config, mode, request))))
                }
            },
        }
    }
}

/// A query, or the message with which it could not be had, with texts as
/// sequences of characters.
pub open spec fn query_view(query: Result<Vec<(String, String)>, String>) -> Result<
    Seq<(Seq<char>, Seq<char>)>,
    Seq<char>,
> {
    match query {
        Ok(pairs) => Ok(pairs.deep_view()),
        Err(detail) => Err(detail@),
    }
}

/// Finds the value of the last pair named `name`.
pub fn last_query_value(pairs: &Vec<(String, String)>, name: &str) -> (value: Option<String>)
    ensures
        opt_text(value) == last_value(pairs.deep_view(), name@),
{
    let ghost all = pairs.deep_view();
    let mut i: usize = pairs.len();
    assert(all.take(i as int) =~= all);
    while i > 0
        invariant
            i <= pairs.len(),
            all == pairs.deep_view(),
            last_value(all, name@) == last_value(all.take(i as int), name@),
        decreases i,
    {
        i -= 1;
        let ghost upto = all.take(i + 1);
        assert(upto.last() == all[i as int]);
        assert(upto.drop_last() =~= all.take(i as int));
        if pairs[i].0.as_str().eq(name) {
            return Some(pairs[i].1.clone());
        }
    }
    None
}

fn text_or_empty(text: Option<String>) -> (value: String)
    ensures
        value@ == or_empty(opt_text(text)),
{
    match text {
        Some(t) => t,
        None => String::new(),
    }
}

/// Reads the request out of a query.
pub fn parse_query(query: &Vec<(String, String)>) -> (request: AuthorizationRequest)
    ensures
        request@ == request_of(query.deep_view()),
{
    AuthorizationRequest {
        client_id: text_or_empty(last_query_value(query, "client_id")),
        redirect_uri: text_or_empty(last_query_value(query, "redirect_uri")),
        state: text_or_empty(last_query_value(query, "state")),
        code_challenge: last_query_value(query, "code_challenge"),
        code_challenge_method: last_query_value(query, "code_challenge_method"),
    }
}

/// Whether `mode` is one of the valid scope modes.
pub fn validate_scopemode(mode: &str) -> (valid: bool)
    ensures
        valid == is_valid_scopemode(mode@),
{
    let modes = Config::valid_scopemodes();
    let mut i: usize = 0;
    while i < modes.len()
        invariant
            i <= modes@.len(),
            modes@.len() == 2,
            modes@[0]@ == "guilds"@,
            modes@[1]@ == "email"@,
            forall|j: int| 0 <= j < i ==> modes@[j]@ != mode@,
        decreases modes@.len() - i,
    {
        if modes[i].eq(mode) {
            return true;
        }
        i += 1;
    }
    false
}

/// The scope that is asked of the upstream provider under a scope mode.
pub fn scope_for(mode: &str) -> (scope: &'static str)
    ensures
        scope@ == upstream_scope(mode@),
{
    if mode.eq("guilds") {
        "identify email guilds"
    } else {
        "identify email"
    }
}

/// Lists the parameters of the upstream authorization address.
pub fn build_params(config: &Config, mode: &str, request: &AuthorizationRequest) -> (params: Vec<
    (String, String),
>)
    ensures
        params.deep_view() == authorize_params(config@, mode@, request@),
{
    let mut params: Vec<(String, String)> = Vec::new();
    params.push(pair("client_id", config.client_id.as_str()));
    params.push(pair("redirect_uri", config.redirect_url.as_str()));
    params.push(pair("response_type", "code"));
    params.push(pair("scope", scope_for(mode)));
    params.push(pair("state", request.state.as_str()));
    params.push(pair("prompt", "none"));
    match &request.code_challenge {
        Some(challenge) => {
            params.push(pair("code_challenge", challenge.as_str()));
        },
        None => {},
    }
    match &request.code_challenge_method {
        Some(method) => {
            params.push(pair("code_challenge_method", method.as_str()));
        },
        None => {},
    }
    assert(params.deep_view() =~= authorize_params(config@, mode@, request@));
    params
}

/// Turns the outcome of encoding the parameters into the redirect.
pub fn redirect_to(encoded: Result<String, String>) -> (reply: Result<Reply, AppError>)
    ensures
        match encoded {
            Ok(text) => is_reply(
                reply,
                Ok(ReplyView::Redirect("https://discord.com/oauth2/authorize?"@ + text@)),
            ),
            Err(detail) => is_reply(reply, Err(AppErrorView::Unexpected(detail@))),
        },
{
    match encoded {
        Ok(text) => Ok(Reply::Redirect(concat("https://discord.com/oauth2/authorize?", text.as_str()))),
        Err(detail) => Err(AppError::Unexpected(detail)),
    }
}

/// Redirects a request to the upstream authorization address, with the
/// parameters of [`authorize_params`].
pub fn build_redirect(config: &Config, mode: &str, request: &AuthorizationRequest) -> (reply: Result<
    Reply,
    AppError,
>)
    ensures
        is_reply(
            reply,
            Ok(ReplyView::Redirect(authorize_location(authorize_params(config@, mode@, request@)))),
        ),
{
    let params = build_params(config, mode, request);
    redirect_to(form_urlencode(&params))
}

/// Answers an authorization request, given the scope mode that its path
/// names, if any, and its query as a list of pairs of names and values, or
/// the message with which its address could not be read.
pub fn authorize_handler(
    scopemode: Option<String>,
    query: Result<Vec<(String, String)>, String>,
    config: &Config,
) -> (reply: Result<Reply, AppError>)
    ensures
        is_reply(reply, authorize_outcome(opt_text(scopemode), query_view(query), config@)),
{
    let mode = text_or_empty(scopemode);
    if !validate_scopemode(mode.as_str()) {
        return Ok(Reply::BadRequest(String::from_str("Invalid scopemode")));
    }
    let pairs = match query {
        Ok(pairs) => pairs,
        Err(detail) => {
            return Err(AppError::Unexpected(detail));
        },
    };
    let request = parse_query(&pairs);
    if !request.client_id.as_str().eq(config.client_id.as_str()) || !request.redirect_uri.as_str().eq(
        config.redirect_url.as_str(),
    ) {
        return Ok(Reply::BadRequest(String::from_str("Bad request")));
    }
    build_redirect(config, mode.as_str(), &request)
}

/// A request with a valid scope mode, the configured client and the
/// configured redirect address is redirected, and the redirect asks for
/// exactly one scope: `identify email guilds` under the mode `guilds`,
/// `identify email` under the mode `email`.
pub proof fn valid_request_is_redirected(
    mode: Seq<char>,
    query: Seq<(Seq<char>, Seq<char>)>,
    config: ConfigView,
)
    requires
        is_valid_scopemode(mode),
        request_of(query).client_id == config.client_id,
        request_of(query).redirect_uri == config.redirect_url,
    ensures
        authorize_outcome(Some(mode), Ok(query), config) == Ok::<ReplyView, AppErrorView>(
            ReplyView::Redirect(authorize_location(authorize_params(config, mode, request_of(query)))),
        ),
        authorize_params(config, mode, request_of(query))[3] == ("scope"@, upstream_scope(mode)),
        forall|i: int|
            0 <= i < authorize_params(config, mode, request_of(query)).len() && i != 3
                ==> #[trigger] authorize_params(config, mode, request_of(query))[i].0 != "scope"@,
        mode == "guilds"@ ==> upstream_scope(mode) == "identify email guilds"@,
        mode == "email"@ ==> upstream_scope(mode) == "identify email"@,
{
    reveal_strlit("guilds");
    reveal_strlit("email");
    assert("guilds"@.len() == 6 && "email"@.len() == 5);
    parameter_names_differ();
}

/// The names of the parameters differ from one another.
proof fn parameter_names_differ()
    ensures
        "scope"@ != "client_id"@,
        "scope"@ != "redirect_uri"@,
        "scope"@ != "response_type"@,
        "scope"@ != "state"@,
        "scope"@ != "prompt"@,
        "scope"@ != "code_challenge"@,
        "scope"@ != "code_challenge_method"@,
        "code_challenge"@ != "client_id"@,
        "code_challenge"@ != "redirect_uri"@,
        "code_challenge"@ != "response_type"@,
        "code_challenge"@ != "state"@,
        "code_challenge"@ != "prompt"@,
        "code_challenge"@ != "code_challenge_method"@,
        "code_challenge_method"@ != "client_id"@,
        "code_challenge_method"@ != "redirect_uri"@,
        "code_challenge_method"@ != "response_type"@,
        "code_challenge_method"@ != "state"@,
        "code_challenge_method"@ != "prompt"@,
{
    reveal_strlit("scope");
    reveal_strlit("client_id");
    reveal_strlit("redirect_uri");
    reveal_strlit("response_type");
    reveal_strlit("state");
    reveal_strlit("prompt");
    reveal_strlit("code_challenge");
    reveal_strlit("code_challenge_method");
    assert("scope"@.len() == 5 && "state"@.len() == 5 && "prompt"@.len() == 6);
    assert("client_id"@.len() == 9 && "redirect_uri"@.len() == 12 && "response_type"@.len() == 13);
    assert("code_challenge"@.len() == 14 && "code_challenge_method"@.len() == 21);
    assert("scope"@[1] != "state"@[1]);
}

/// A request whose client or redirect address is not exactly the configured
/// one is turned away with status 400, whether its scope mode is valid or
/// not.
pub proof fn mismatch_is_rejected(
    scopemode: Option<Seq<char>>,
    query: Seq<(Seq<char>, Seq<char>)>,
    config: ConfigView,
)
    requires
        request_of(query).client_id != config.client_id || request_of(query).redirect_uri
            != config.redirect_url,
    ensures
        authorize_outcome(scopemode, Ok(query), config) matches Ok(reply) && reply.is_rejection()
            && reply.status() == 400,
{
}

/// The indices at which a parameter of the given name stands.
pub open spec fn occurrences(params: Seq<(Seq<char>, Seq<char>)>, name: Seq<char>) -> Set<int> {
    Set::new(|i: int| 0 <= i < params.len() && params[i].0 == name)
}

/// The two parameters of the proof key are those of the query, unchanged,
/// where the query has them, and in the redirect stands no parameter of
/// either name, not even an empty one, where the query has none.
pub proof fn proof_key_is_passed_through(
    mode: Seq<char>,
    query: Seq<(Seq<char>, Seq<char>)>,
    config: ConfigView,
)
    ensures
        ({
            let request = request_of(query);
            let params = authorize_params(config, mode, request);
            &&& request.code_challenge == last_value(query, "code_challenge"@)
            &&& request.code_challenge_method == last_value(query, "code_challenge_method"@)
            &&& match request.code_challenge {
                Some(value) => occurrences(params, "code_challenge"@) == set![6int] && params[6].1
                    == value,
                None => occurrences(params, "code_challenge"@) == Set::<int>::empty(),
            }
            &&& match (request.code_challenge, request.code_challenge_method) {
                (Some(_), Some(value)) => occurrences(params, "code_challenge_method"@) == set![7int]
                    && params[7].1 == value,
                (None, Some(value)) => occurrences(params, "code_challenge_method"@) == set![6int]
                    && params[6].1 == value,
                (_, None) => occurrences(params, "code_challenge_method"@) == Set::<int>::empty(),
            }
        }),
{
    parameter_names_differ();
    let request = request_of(query);
    let params = authorize_params(config, mode, request);
    match request.code_challenge {
        Some(_) => {
            assert(occurrences(params, "code_challenge"@) =~= set![6int]);
        },
        None => {
            assert(occurrences(params, "code_challenge"@) =~= Set::<int>::empty());
        },
    }
    match (request.code_challenge, request.code_challenge_method) {
        (Some(_), Some(_)) => {
            assert(occurrences(params, "code_challenge_method"@) =~= set![7int]);
        },
        (None, Some(_)) => {
            assert(occurrences(params, "code_challenge_method"@) =~= set![6int]);
        },
        (_, None) => {
            assert(occurrences(params, "code_challenge_method"@) =~= Set::<int>::empty());
        },
    }
}

} // verus!
