use agent_gateway::access::{
    authorize_chat, authorize_stream, token_of_header, token_of_query, WsQuery,
};

fn query(token: Option<&str>) -> WsQuery {
    WsQuery { token: token.map(str::to_string) }
}

#[test]
fn token_follows_bearer() {
    assert_eq!(token_of_header(Some("Bearer abc")), "abc");
    assert_eq!(token_of_header(Some("Bearer  abc")), " abc");
    assert_eq!(token_of_header(Some("Bearer caf\u{e9}")), "caf\u{e9}");
    assert_eq!(token_of_header(Some("Bearer ")), "");
    assert_eq!(token_of_header(Some("bearer abc")), "");
    assert_eq!(token_of_header(Some("Basic abc")), "");
    assert_eq!(token_of_header(Some("Bearer")), "");
    assert_eq!(token_of_header(Some("")), "");
    assert_eq!(token_of_header(None), "");
}

#[test]
fn token_of_a_query_may_be_missing() {
    assert_eq!(token_of_query(&query(Some("abc"))), "abc");
    assert_eq!(token_of_query(&query(None)), "");
}

#[test]
fn no_pairing_no_check() {
    assert!(authorize_chat(false, &query(None), |_: &str| panic!("checked")).is_ok());
    assert!(authorize_stream(false, None, |_: &str| panic!("checked")).is_ok());
}

#[test]
fn pairing_admits_the_paired() {
    assert!(authorize_chat(true, &query(Some("abc")), |t: &str| t == "abc").is_ok());
    assert!(authorize_stream(true, Some("Bearer abc"), |t: &str| t == "abc").is_ok());
}

#[test]
fn pairing_refuses_strangers() {
    let refusal = authorize_chat(true, &query(Some("xyz")), |t: &str| t == "abc").unwrap_err();
    assert_eq!(refusal.status, 401);
    assert_eq!(refusal.body, "Unauthorized \u{2014} provide ?token=<bearer_token>");
    let refusal = authorize_stream(true, Some("abc"), |t: &str| t == "abc").unwrap_err();
    assert_eq!(refusal.status, 401);
    assert_eq!(
        refusal.body,
        "Unauthorized \u{2014} provide Authorization: Bearer <token>"
    );
}

#[test]
fn a_missing_token_is_checked_as_the_empty_text() {
    assert!(authorize_chat(true, &query(None), |t: &str| t.is_empty()).is_ok());
    assert!(authorize_stream(true, None, |t: &str| t.is_empty()).is_ok());
}
