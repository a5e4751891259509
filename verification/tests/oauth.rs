use huali_desktop::oauth::{OAUTH_CLIENT_ID, OAUTH_REDIRECT, OAUTH_SCOPE};
use huali_desktop::query::{parse_query, split_target};
use huali_desktop::bridge::{token_step, Endpoint};
use huali_desktop::json::Json;
use huali_desktop::oauth::{callback_page, oauth_auth_url, TokenStore, OAUTH_CALLBACK_HTML};
use huali_desktop::reply::{reply_headers, Cors, Reply, PORTAL_BASE};

fn render(j: &Json) -> String {
    match j {
        Json::Null => "null".to_string(),
        Json::Bool(b) => b.to_string(),
        Json::Num(n) => n.to_string(),
        Json::Str(s) => format!("{:?}", s),
        Json::Arr(v) => format!("[{}]", v.iter().map(render).collect::<Vec<_>>().join(",")),
        Json::Obj(v) => format!(
            "{{{}}}",
            v.iter().map(|(k, x)| format!("{:?}:{}", k, render(x))).collect::<Vec<_>>().join(",")
        ),
    }
}

fn json_of(r: &Reply) -> (String, bool) {
    match r {
        Reply::Json { value, cors } => (render(value), matches!(cors, Cors::Portal)),
        _ => panic!("not a JSON reply"),
    }
}

#[test]
fn auth_url_is_encoded() {
    assert_eq!(
        oauth_auth_url(),
        "https://accounts.google.com/o/oauth2/v2/auth?client_id=637230075865-lfeagh9nb7j3v5p9a1ppk6mpi252b157.apps.googleusercontent.com&redirect_uri=http%3A%2F%2F127.0.0.1%3A3710%2Foauth2callback&response_type=token&scope=https%3A%2F%2Fwww.googleapis.com%2Fauth%2Fspreadsheets&prompt=consent&include_granted_scopes=true"
    );
}

#[test]
fn store_then_read_within_lifetime() {
    let mut s = TokenStore::new();
    let now: u128 = 1_700_000_000_000;
    let r = s.store("tok-1".to_string(), 3600, now);
    assert_eq!(json_of(&r), ("{\"ok\":true}".to_string(), false));
    let r = s.token_reply(now + 1_000);
    assert_eq!(
        json_of(&r),
        ("{\"ok\":true,\"access_token\":\"tok-1\",\"expires_in\":3599}".to_string(), true)
    );
}

#[test]
fn token_with_a_minute_left_is_not_handed_out() {
    let mut s = TokenStore::new();
    let now: u128 = 1_000_000;
    s.store("t".to_string(), 120, now);
    let r = s.token_reply(now + 60_000);
    assert_eq!(json_of(&r), ("{\"ok\":false}".to_string(), true));
    let r = s.token_reply(now + 59_999);
    assert_eq!(json_of(&r), ("{\"ok\":true,\"access_token\":\"t\",\"expires_in\":60}".to_string(), true));
}

#[test]
fn empty_token_refused_and_slot_kept() {
    let mut s = TokenStore::new();
    s.store("keep".to_string(), 3600, 0);
    let r = s.store(String::new(), 3600, 5);
    assert_eq!(json_of(&r), ("{\"ok\":false,\"msg\":\"no token\"}".to_string(), false));
    let r = s.token_reply(10);
    assert!(json_of(&r).0.contains("\"keep\""));
}

#[test]
fn cleared_slot_grants_nothing() {
    let mut s = TokenStore::new();
    s.store("x".to_string(), 3600, 0);
    s.clear();
    assert_eq!(json_of(&s.token_reply(0)), ("{\"ok\":false}".to_string(), true));
}

#[test]
fn accept_reads_the_posted_body() {
    let mut s = TokenStore::new();
    let r = s.accept("{\"access_token\":\"abc\",\"expires_in\":100}", 0);
    assert_eq!(json_of(&r).0, "{\"ok\":true}");
    assert_eq!(json_of(&s.token_reply(0)).0, "{\"ok\":true,\"access_token\":\"abc\",\"expires_in\":100}");
}

#[test]
fn accept_defaults_lifetime_to_an_hour() {
    let mut s = TokenStore::new();
    s.accept("{\"access_token\":\"abc\",\"expires_in\":\"100\"}", 0);
    assert_eq!(json_of(&s.token_reply(0)).0, "{\"ok\":true,\"access_token\":\"abc\",\"expires_in\":3600}");
}

#[test]
fn accept_refuses_missing_or_malformed_token() {
    let mut s = TokenStore::new();
    assert_eq!(json_of(&s.accept("not json", 0)).0, "{\"ok\":false,\"msg\":\"no token\"}");
    assert_eq!(json_of(&s.accept("{\"access_token\":5}", 0)).0, "{\"ok\":false,\"msg\":\"no token\"}");
    assert_eq!(json_of(&s.token_reply(0)).0, "{\"ok\":false}");
}

#[test]
fn later_store_replaces_token() {
    let mut s = TokenStore::new();
    s.store("a".to_string(), 3600, 0);
    s.store("b".to_string(), 7200, 0);
    assert_eq!(json_of(&s.token_reply(0)).0, "{\"ok\":true,\"access_token\":\"b\",\"expires_in\":7200}");
}

#[test]
fn token_replies_are_for_the_portal_only() {
    let s = TokenStore::new();
    let h = reply_headers(&s.token_reply(0));
    assert_eq!(h[1], ("Access-Control-Allow-Origin".to_string(), PORTAL_BASE.to_string()));
}

#[test]
fn callback_page_is_html() {
    match callback_page() {
        Reply::Html(s) => assert_eq!(s, OAUTH_CALLBACK_HTML),
        _ => panic!("expected a page"),
    }
    let h = reply_headers(&callback_page());
    assert_eq!(h, vec![("Content-Type".to_string(), "text/html; charset=utf-8".to_string())]);
}

#[test]
fn auth_url_query_parses_back() {
    let (base, q) = split_target(&oauth_auth_url());
    assert_eq!(base, "https://accounts.google.com/o/oauth2/v2/auth");
    let m = parse_query(&q);
    assert_eq!(m.get("client_id").map(|s| s.as_str()), Some(OAUTH_CLIENT_ID));
    assert_eq!(m.get("redirect_uri").map(|s| s.as_str()), Some(OAUTH_REDIRECT));
    assert_eq!(m.get("response_type").map(|s| s.as_str()), Some("token"));
    assert_eq!(m.get("scope").map(|s| s.as_str()), Some(OAUTH_SCOPE));
    assert_eq!(m.get("prompt").map(|s| s.as_str()), Some("consent"));
    assert_eq!(m.get("include_granted_scopes").map(|s| s.as_str()), Some("true"));
}

#[test]
fn token_steps_over_a_request_sequence() {
    let mut s = TokenStore::new();
    assert!(token_step(&mut s, &Endpoint::OAuthStore, "{\"access_token\":\"t1\"}", 0).is_some());
    assert!(token_step(&mut s, &Endpoint::Ping, "", 0).is_none());
    let r = token_step(&mut s, &Endpoint::OAuthToken, "", 0).unwrap();
    assert_eq!(json_of(&r).0, "{\"ok\":true,\"access_token\":\"t1\",\"expires_in\":3600}");
    assert!(token_step(&mut s, &Endpoint::OAuthStart, "", 0).is_none());
    token_step(&mut s, &Endpoint::OAuthStore, "{}", 0);
    let r = token_step(&mut s, &Endpoint::OAuthToken, "", 0).unwrap();
    assert_eq!(json_of(&r), ("{\"ok\":false}".to_string(), true));
}
