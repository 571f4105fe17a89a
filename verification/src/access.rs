//! Who may open a stream or a chat.
use vstd::prelude::*;
use vstd::string::*;

verus! {

/// The query of a request to open a chat. A browser cannot set headers on a WebSocket, so the token
/// comes with the address.
#[derive(Debug)]
pub struct WsQuery {
    pub token: Option<String>,
}

/// The answer to a request that is not granted.
#[derive(Debug)]
pub struct Refusal {
    /// The HTTP status.
    pub status: u16,
    /// The text of the answer.
    pub body: String,
}

/// The HTTP status of a request without valid credentials.
pub const UNAUTHORIZED: u16 = 401;

/// The HTTP status of a request that cannot be served now.
pub const SERVICE_UNAVAILABLE: u16 = 503;

/// How a request is answered.
pub enum Answer {
    /// It is granted.
    Serve,
    /// It is refused with a status and a text.
    Refuse(u16, Seq<char>),
}

/// How a request is answered by a result.
pub open spec fn answer_of<T>(result: Result<T, Refusal>) -> Answer {
    match result {
        Ok(_) => Answer::Serve,
        Err(refusal) => Answer::Refuse(refusal.status, refusal.body@),
    }
}

/// How a request is answered for which valid credentials were or were not given, with the text of
/// the answer if they were not.
pub open spec fn gate(granted: bool, refusal: Seq<char>) -> Answer {
    if granted {
        Answer::Serve
    } else {
        Answer::Refuse(UNAUTHORIZED, refusal)
    }
}

/// The answer to a request to open a chat without valid credentials.
pub open spec fn chat_refusal() -> Seq<char> {
    "Unauthorized — provide ?token=<bearer_token>"@
}

/// The answer to a request to open a stream without valid credentials.
pub open spec fn stream_refusal() -> Seq<char> {
    "Unauthorized — provide Authorization: Bearer <token>"@
}

/// The token in the query of a chat; the empty text where there is none.
pub open spec fn query_token(query: WsQuery) -> Seq<char> {
    match query.token {
        Some(token) => token@,
        None => Seq::empty(),
    }
}

/// The token in an `Authorization` header; the empty text where there is no such header or where
/// it is not of the form `Bearer <token>`.
pub open spec fn header_token(authorization: Option<&str>) -> Seq<char> {
    match authorization {
        Some(text) => if "Bearer "@.is_prefix_of(text@) {
            text@.skip("Bearer "@.len() as int)
        } else {
            Seq::empty()
        },
        None => Seq::empty(),
    }
}

/// Whether a request with this token is let in: always where no pairing is required, else exactly
/// if the check of the token says so.
pub open spec fn let_in<F: Fn(&str) -> bool>(
    require_pairing: bool,
    is_authenticated: F,
    token: Seq<char>,
    granted: bool,
) -> bool {
    if require_pairing {
        exists|t: &str| t@ == token && #[trigger] is_authenticated.ensures((t,), granted)
    } else {
        granted
    }
}

/// The token in the query of a chat.
pub fn token_of_query(query: &WsQuery) -> (token: &str)
    ensures
        token@ == query_token(*query),
{
    match &query.token {
        Some(token) => token.as_str(),
        None => {
            proof {
                reveal_strlit("");
                assert(""@ =~= Seq::<char>::empty());
            }
            ""
        },
    }
}

/// The token in an `Authorization` header.
pub fn token_of_header(authorization: Option<&str>) -> (token: &str)
    ensures
        token@ == header_token(authorization),
{
    proof {
        reveal_strlit("");
        assert(""@ =~= Seq::<char>::empty());
    }
    let text = match authorization {
        Some(text) => text,
        None => return "",
    };
    let scheme = "Bearer ";
    let n = scheme.unicode_len();
    let len = text.unicode_len();
    if len < n {
        return "";
    }
    let mut i: usize = 0;
    while i < n
        invariant
            i <= n <= len,
            n == scheme@.len(),
            len == text@.len(),
            forall|j: int| 0 <= j < i ==> text@[j] == scheme@[j],
            scheme@ == "Bearer "@,
            authorization == Some(text),
            ""@ == Seq::<char>::empty(),
        decreases n - i,
    {
        if text.get_char(i) != scheme.get_char(i) {
            return "";
        }
        i = i + 1;
    }
    text.substring_char(n, len)
}

/// Checks the token if pairing is required, and refuses the request with the given text if the
/// check fails.
fn authorize<F: Fn(&str) -> bool>(
    require_pairing: bool,
    token: &str,
    is_authenticated: F,
    refusal: &str,
) -> (granted: Result<(), Refusal>)
    requires
        forall|t: &str| #[trigger] is_authenticated.requires((t,)),
    ensures
        let_in(require_pairing, is_authenticated, token@, granted is Ok),
        answer_of(granted) == gate(granted is Ok, refusal@),
{
    if require_pairing && !is_authenticated(token) {
        return Err(Refusal { status: UNAUTHORIZED, body: refusal.to_owned() });
    }
    Ok(())
}

/// Decides on a request to open a chat. The token is that of the query, and is checked if pairing
/// is required.
pub fn authorize_chat<F: Fn(&str) -> bool>(
    require_pairing: bool,
    query: &WsQuery,
    is_authenticated: F,
) -> (granted: Result<(), Refusal>)
    requires
        forall|t: &str| #[trigger] is_authenticated.requires((t,)),
    ensures
        let_in(require_pairing, is_authenticated, query_token(*query), granted is Ok),
        answer_of(granted) == gate(granted is Ok, chat_refusal()),
{
    authorize(
        require_pairing,
        token_of_query(query),
        is_authenticated,
        "Unauthorized — provide ?token=<bearer_token>",
    )
}

/// Decides on a request to open a stream. The token is that of the `Authorization` header, and is
/// checked if pairing is required.
pub fn authorize_stream<F: Fn(&str) -> bool>(
    require_pairing: bool,
    authorization: Option<&str>,
    is_authenticated: F,
) -> (granted: Result<(), Refusal>)
    requires
        forall|t: &str| #[trigger] is_authenticated.requires((t,)),
    ensures
        let_in(require_pairing, is_authenticated, header_token(authorization), granted is Ok),
        answer_of(granted) == gate(granted is Ok, stream_refusal()),
{
    authorize(
        require_pairing,
        token_of_header(authorization),
        is_authenticated,
        "Unauthorized — provide Authorization: Bearer <token>",
    )
}

/// Where no pairing is required, every request is let in, whatever the check would say.
pub proof fn law_open_without_pairing<F: Fn(&str) -> bool>(
    is_authenticated: F,
    token: Seq<char>,
    granted: bool,
)
    ensures
        let_in(false, is_authenticated, token, granted) <==> granted,
{
}

/// Where pairing is required, a request whose token every check turns down is never let in.
pub proof fn law_closed_to_strangers<F: Fn(&str) -> bool>(
    is_authenticated: F,
    token: Seq<char>,
    granted: bool,
)
    requires
        forall|t: &str, verdict: bool|
            t@ == token && #[trigger] is_authenticated.ensures((t,), verdict) ==> !verdict,
        let_in(true, is_authenticated, token, granted),
    ensures
        !granted,
{
}

// ---------------------------------------------------------------------------------------------
// What calls give
// ---------------------------------------------------------------------------------------------

/// The token of a header `Bearer <token>` is all that follows the scheme, whole and unchanged,
/// whatever it is; any other header, and none at all, has the empty token.
pub proof fn law_token_follows_the_scheme(
    authorization: Option<&str>,
    found: &str,
    given: Seq<char>,
)
    requires
        call_ensures(token_of_header, (authorization,), found),
    ensures
        authorization matches Some(text) ==> (text@ == "Bearer "@ + given ==> found@ == given),
        authorization matches Some(text) ==> (!"Bearer "@.is_prefix_of(text@) ==> found@.len() == 0),
        authorization is None ==> found@.len() == 0,
{
    if let Some(text) = authorization {
        if text@ == "Bearer "@ + given {
            assert(text@.skip("Bearer "@.len() as int) =~= given);
        }
    }
}

/// The token of a chat's query is the one that it holds, whole and unchanged, and the empty token
/// where it holds none.
pub proof fn law_token_of_the_query(query: &WsQuery, found: &str)
    requires
        call_ensures(token_of_query, (query,), found),
    ensures
        query.token matches Some(token) ==> found@ == token@,
        query.token is None ==> found@.len() == 0,
{
}

/// A request for a stream with the header `Bearer <token>` is decided by the check of exactly that
/// token, whatever it is: it is granted if the check accepts the token, and refused with status 401
/// if the check turns it down. Where no pairing is required it is granted in any case.
pub proof fn law_stream_is_decided_by_the_token<F: Fn(&str) -> bool>(
    require_pairing: bool,
    text: &str,
    token: Seq<char>,
    is_authenticated: F,
    granted: Result<(), Refusal>,
)
    requires
        call_ensures(
            authorize_stream::<F>,
            (require_pairing, Some(text), is_authenticated),
            granted,
        ),
        text@ == "Bearer "@ + token,
    ensures
        !require_pairing ==> granted is Ok,
        (forall|t: &str, verdict: bool|
            t@ == token && #[trigger] is_authenticated.ensures((t,), verdict) ==> verdict)
            ==> granted is Ok,
        require_pairing && (forall|t: &str, verdict: bool|
            t@ == token && #[trigger] is_authenticated.ensures((t,), verdict) ==> !verdict)
            ==> granted is Err,
        granted matches Err(refusal) ==> refusal.status == 401 && refusal.body@
            == "Unauthorized — provide Authorization: Bearer <token>"@,
{
    assert(text@.skip("Bearer "@.len() as int) =~= token);
}

/// A request for a stream without a header of the form `Bearer <token>` is decided by the check of the
/// empty token.
pub proof fn law_stream_without_token<F: Fn(&str) -> bool>(
    require_pairing: bool,
    authorization: Option<&str>,
    is_authenticated: F,
    granted: Result<(), Refusal>,
)
    requires
        call_ensures(
            authorize_stream::<F>,
            (require_pairing, authorization, is_authenticated),
            granted,
        ),
        authorization matches Some(text) ==> !"Bearer "@.is_prefix_of(text@),
    ensures
        !require_pairing ==> granted is Ok,
        (forall|t: &str, verdict: bool|
            t@.len() == 0 && #[trigger] is_authenticated.ensures((t,), verdict) ==> verdict)
            ==> granted is Ok,
        require_pairing && (forall|t: &str, verdict: bool|
            t@.len() == 0 && #[trigger] is_authenticated.ensures((t,), verdict) ==> !verdict)
            ==> granted is Err,
        granted matches Err(refusal) ==> refusal.status == 401 && refusal.body@
            == "Unauthorized — provide Authorization: Bearer <token>"@,
{
}

/// A request for a chat is decided by the check of exactly the token in its query, or of the empty
/// token where there is none: it is granted if the check accepts the token, and refused with status
/// 401 if the check turns it down. Where no pairing is required it is granted in any case.
pub proof fn law_chat_is_decided_by_the_token<F: Fn(&str) -> bool>(
    require_pairing: bool,
    query: &WsQuery,
    token: Seq<char>,
    is_authenticated: F,
    granted: Result<(), Refusal>,
)
    requires
        call_ensures(authorize_chat::<F>, (require_pairing, query, is_authenticated), granted),
        query.token matches Some(given) ==> given@ == token,
        query.token is None ==> token.len() == 0,
    ensures
        !require_pairing ==> granted is Ok,
        (forall|t: &str, verdict: bool|
            t@ == token && #[trigger] is_authenticated.ensures((t,), verdict) ==> verdict)
            ==> granted is Ok,
        require_pairing && (forall|t: &str, verdict: bool|
            t@ == token && #[trigger] is_authenticated.ensures((t,), verdict) ==> !verdict)
            ==> granted is Err,
        granted matches Err(refusal) ==> refusal.status == 401 && refusal.body@
            == "Unauthorized — provide ?token=<bearer_token>"@,
{
    if query.token is None {
        assert(token =~= Seq::<char>::empty());
    }
}

} // verus!
