//! Google OAuth through the system browser: the authorisation URL, the page
//! the redirect lands on, and the slot that holds the token it hands back.

use vstd::prelude::*;
use vstd::utf8::encode_utf8;
use crate::json::{Json, JsonV, member, object, jstr, ok_json, fail_json, ok_v, fail_v, lemma_field_models, field_models};
use crate::reply::{PORTAL_BASE, Reply, ReplyV, headers_spec, json_any, json_portal, reply_any, reply_portal};
use crate::body::{json_member_str, json_member_u64, member_str, member_u64};
use crate::text::push_str;
use crate::urlcodec::{percent_encode, url_encode, law_decode_undoes_encode, law_encoded_has_no_separator};
use crate::query::{after_first, before_first, join_with, lemma_pair_piece, lemma_split_join, pieces_map, query_map};

verus! {

/// The OAuth client of the portal.
pub const OAUTH_CLIENT_ID: &'static str = "637230075865-lfeagh9nb7j3v5p9a1ppk6mpi252b157.apps.googleusercontent.com";

/// The scope asked for: the spreadsheets the portal writes back to.
pub const OAUTH_SCOPE: &'static str = "https://www.googleapis.com/auth/spreadsheets";

/// Where the browser is sent back to: the bridge itself.
pub const OAUTH_REDIRECT: &'static str = "http://127.0.0.1:3710/oauth2callback";

/// The page the redirect lands on. The fragment that carries the token never
/// reaches the bridge, so the page reads it and posts it to `/oauth/store`.
pub const OAUTH_CALLBACK_HTML: &'static str = r#"<!doctype html><html><head><meta charset="utf-8"><title>Google 授權</title></head>
<body style="font-family:system-ui,sans-serif;text-align:center;padding:48px 24px;color:#333">
<h2 id="m">正在完成授權…</h2>
<script>(function(){
  var p=new URLSearchParams(location.hash.replace(/^#/,''));
  var tok=p.get('access_token'), exp=p.get('expires_in');
  var m=document.getElementById('m');
  if(!tok){m.textContent='授權失敗：未取得存取權杖，請關閉此頁後重試。';return;}
  fetch('/oauth/store',{method:'POST',headers:{'Content-Type':'application/json'},body:JSON.stringify({access_token:tok,expires_in:Number(exp)||3600})})
    .then(function(){m.textContent='✓ 授權成功，請返回「華利建機處」應用繼續，可關閉此頁。';})
    .catch(function(){m.textContent='寫回本地失敗，請重試。';});
})();</script></body></html>"#;

/// The page served at `/oauth2callback`.
pub fn callback_page() -> (r: Reply)
    ensures
        r@ == ReplyV::Html(OAUTH_CALLBACK_HTML@),
{
    Reply::Html(OAUTH_CALLBACK_HTML.to_owned())
}

/// A token is handed out only while it has more than this many milliseconds
/// left.
pub const MIN_REMAINING_MS: u128 = 60_000;

/// Lifetime in seconds given to a stored token that states none.
pub const DEFAULT_EXPIRES_IN: u64 = 3600;

/// The authorisation URL: an implicit grant (`response_type=token`) for the
/// client, the redirect and the scope, the latter two percent-encoded.
pub open spec fn auth_url_spec() -> Seq<char> {
    "https://accounts.google.com/o/oauth2/v2/auth?client_id="@ + OAUTH_CLIENT_ID@ + "&redirect_uri="@
        + percent_encode(encode_utf8(OAUTH_REDIRECT@)) + "&response_type=token&scope="@
        + percent_encode(encode_utf8(OAUTH_SCOPE@)) + "&prompt=consent&include_granted_scopes=true"@
}

/// The URL that the system browser opens to ask the user for access.
pub fn oauth_auth_url() -> (r: String)
    ensures
        r@ == auth_url_spec(),
{
    let scope = url_encode(OAUTH_SCOPE);
    let redirect = url_encode(OAUTH_REDIRECT);
    let mut r = String::new();
    push_str(&mut r, "https://accounts.google.com/o/oauth2/v2/auth?client_id=");
    push_str(&mut r, OAUTH_CLIENT_ID);
    push_str(&mut r, "&redirect_uri=");
    push_str(&mut r, redirect.as_str());
    push_str(&mut r, "&response_type=token&scope=");
    push_str(&mut r, scope.as_str());
    push_str(&mut r, "&prompt=consent&include_granted_scopes=true");
    assert(r@ =~= auth_url_spec());
    r
}

/// The slot's content: a token and the time (ms since the epoch) it expires.
pub type SlotV = Option<(Seq<char>, u128)>;

/// The slot after a store request, and the reply to it: an empty token is
/// refused and leaves the slot as it was; any other is kept until `now`
/// plus its lifetime in seconds.
pub open spec fn store_spec(slot: SlotV, token: Seq<char>, expires_in: u64, now: u128) -> (SlotV, JsonV) {
    if token.len() == 0 {
        (slot, fail_v("no token"@))
    } else {
        (Some((token, (now + expires_in * 1000) as u128)), ok_v(true))
    }
}

/// The reply to a token request at `now`: the token and its remaining whole
/// seconds while more than a minute of it is left, else `{"ok": false}`.
pub open spec fn token_spec(slot: SlotV, now: u128) -> JsonV {
    match slot {
        Some((tok, exp)) => if exp > now + MIN_REMAINING_MS {
            JsonV::Obj(seq![
                ("ok"@, JsonV::Bool(true)),
                ("access_token"@, JsonV::Str(tok)),
                ("expires_in"@, JsonV::Num(((exp - now) / 1000) as u64)),
            ])
        } else {
            ok_v(false)
        },
        None => ok_v(false),
    }
}

/// The access token that the OAuth redirect handed back, with its expiry.
pub struct TokenStore {
    slot: Option<(String, u128)>,
}

impl View for TokenStore {
    type V = SlotV;

    closed spec fn view(&self) -> SlotV {
        match self.slot {
            Some((t, e)) => Some((t@, e)),
            None => None,
        }
    }
}

impl TokenStore {
    /// An empty slot.
    pub fn new() -> (s: TokenStore)
        ensures
            s@ is None,
    {
        TokenStore { slot: None }
    }

    /// Forgets the token, so that the next one comes from a new grant.
    pub fn clear(&mut self)
        ensures
            final(self)@ is None,
    {
        self.slot = None;
    }

    /// Keeps `token` until `now + expires_in` seconds, unless it is empty.
    pub fn store(&mut self, token: String, expires_in: u64, now: u128) -> (r: Reply)
        requires
            now + expires_in * 1000 <= u128::MAX,
        ensures
            final(self)@ == store_spec(old(self)@, token@, expires_in, now).0,
            r@ == json_any(store_spec(old(self)@, token@, expires_in, now).1),
    {
        if token.as_str().is_empty() {
            return reply_any(fail_json("no token"));
        }
        let exp_at = now + (expires_in as u128) * 1000;
        self.slot = Some((token, exp_at));
        reply_any(ok_json(true))
    }

    /// The reply to the portal's poll for the token at `now`.
    pub fn token_reply(&self, now: u128) -> (r: Reply)
        requires
            now + MIN_REMAINING_MS <= u128::MAX,
        ensures
            r@ == json_portal(token_spec(self@, now)),
    {
        match &self.slot {
            Some((tok, exp)) => {
                if *exp > now + MIN_REMAINING_MS {
                    let secs = ((*exp - now) / 1000) as u64;
                    let mut v = Vec::new();
                    v.push(member("ok", Json::Bool(true)));
                    v.push(member("access_token", jstr(tok.as_str())));
                    v.push(member("expires_in", Json::Num(secs)));
                    proof {
                        lemma_field_models(v@);
                        assert(field_models(v@) =~= seq![
                            ("ok"@, JsonV::Bool(true)),
                            ("access_token"@, JsonV::Str(tok@)),
                            ("expires_in"@, JsonV::Num(secs)),
                        ]);
                    }
                    reply_portal(object(v))
                } else {
                    reply_portal(ok_json(false))
                }
            },
            None => reply_portal(ok_json(false)),
        }
    }
}

/// The token a store request's body carries (empty where it has none).
pub open spec fn body_token(body: Seq<char>) -> Seq<char> {
    match json_member_str(body, "access_token"@) {
        Some(t) => t,
        None => Seq::empty(),
    }
}

/// The lifetime a store request's body gives (an hour where it gives none).
pub open spec fn body_expires_in(body: Seq<char>) -> u64 {
    match json_member_u64(body, "expires_in"@) {
        Some(e) => e,
        None => DEFAULT_EXPIRES_IN,
    }
}

impl TokenStore {
    /// Handles `/oauth/store`: reads `access_token` and `expires_in` from the
    /// JSON body and stores them as `store` does.
    pub fn accept(&mut self, body: &str, now: u128) -> (r: Reply)
        requires
            now + 18_446_744_073_709_551_615u128 * 1000 <= u128::MAX,
        ensures
            final(self)@ == store_spec(old(self)@, body_token(body@), body_expires_in(body@), now).0,
            r@ == json_any(store_spec(old(self)@, body_token(body@), body_expires_in(body@), now).1),
    {
        let token = match member_str(body, "access_token") {
            Some(t) => t,
            None => String::new(),
        };
        let expires_in = match member_u64(body, "expires_in") {
            Some(e) => e,
            None => DEFAULT_EXPIRES_IN,
        };
        self.store(token, expires_in, now)
    }
}

/// The reply a token request gets when a token is handed out.
pub open spec fn granted_v(tok: Seq<char>, secs: u64) -> JsonV {
    JsonV::Obj(seq![
        ("ok"@, JsonV::Bool(true)),
        ("access_token"@, JsonV::Str(tok)),
        ("expires_in"@, JsonV::Num(secs)),
    ])
}

/// A token stored at `t0` with `e` seconds of life is handed back at any
/// later `t` while more than a minute of it is left, with the whole seconds
/// that remain.
pub proof fn law_read_after_store(slot: SlotV, tok: Seq<char>, e: u64, t0: u128, t: u128)
    requires
        tok.len() > 0,
        t0 + e * 1000 <= u128::MAX,
        t + MIN_REMAINING_MS <= u128::MAX,
        t0 + e * 1000 > t + MIN_REMAINING_MS,
    ensures
        token_spec(store_spec(slot, tok, e, t0).0, t) == granted_v(tok, ((t0 + e * 1000 - t) / 1000) as u64),
{
}

/// Once the slot is cleared (a new grant is started), no token is handed out.
pub proof fn law_cleared_slot_grants_nothing(t: u128)
    ensures
        token_spec(None, t) == ok_v(false),
{
}

/// A store request without a token is refused and changes nothing.
pub proof fn law_empty_token_refused(slot: SlotV, e: u64, t: u128)
    ensures
        store_spec(slot, Seq::empty(), e, t) == (slot, fail_v("no token"@)),
{
}

/// A token is never handed out with a minute or less of life left, and what
/// is handed out is the stored token.
pub proof fn law_no_short_lived_token(slot: SlotV, t: u128)
    requires
        token_spec(slot, t) != ok_v(false),
    ensures
        slot is Some,
        slot.unwrap().1 > t + MIN_REMAINING_MS,
        token_spec(slot, t) == granted_v(slot.unwrap().0, ((slot.unwrap().1 - t) / 1000) as u64),
{
}

/// A later store replaces an earlier token.
pub proof fn law_store_replaces(slot: SlotV, a: Seq<char>, ea: u64, ta: u128, b: Seq<char>, eb: u64, tb: u128)
    requires
        b.len() > 0,
    ensures
        store_spec(store_spec(slot, a, ea, ta).0, b, eb, tb).0 == store_spec(slot, b, eb, tb).0,
{
}

/// Replies that may carry a token are readable by the portal alone.
pub proof fn law_token_only_for_portal(slot: SlotV, t: u128)
    ensures
        headers_spec(json_portal(token_spec(slot, t)))[1] == ("Access-Control-Allow-Origin"@, PORTAL_BASE@),
{
}

/// The parameters the authorisation URL carries, decoded.
pub open spec fn auth_params() -> Map<Seq<char>, Seq<char>> {
    map![
        "client_id"@ => OAUTH_CLIENT_ID@,
        "redirect_uri"@ => OAUTH_REDIRECT@,
        "response_type"@ => "token"@,
        "scope"@ => OAUTH_SCOPE@,
        "prompt"@ => "consent"@,
        "include_granted_scopes"@ => "true"@
    ]
}

/// Google's authorisation endpoint.
pub open spec fn auth_base() -> Seq<char> {
    "https://accounts.google.com/o/oauth2/v2/auth"@
}

/// The `key=value` pieces of the authorisation URL's query, in order.
pub open spec fn auth_pieces() -> Seq<Seq<char>> {
    seq![
        "client_id"@ + seq!['='] + OAUTH_CLIENT_ID@,
        "redirect_uri"@ + seq!['='] + percent_encode(encode_utf8(OAUTH_REDIRECT@)),
        "response_type"@ + seq!['='] + "token"@,
        "scope"@ + seq!['='] + percent_encode(encode_utf8(OAUTH_SCOPE@)),
        "prompt"@ + seq!['='] + "consent"@,
        "include_granted_scopes"@ + seq!['='] + "true"@,
    ]
}

/// The authorisation URL's query.
pub open spec fn auth_query() -> Seq<char> {
    let ps = auth_pieces();
    ps[0] + seq!['&'] + ps[1] + seq!['&'] + ps[2] + seq!['&'] + ps[3] + seq!['&'] + ps[4] + seq!['&'] + ps[5]
}

proof fn lemma_auth_url_shape()
    ensures
        auth_url_spec() == auth_base() + seq!['?'] + auth_query(),
        !auth_base().contains('?'),
{
    reveal_strlit("https://accounts.google.com/o/oauth2/v2/auth?client_id=");
    reveal_strlit("https://accounts.google.com/o/oauth2/v2/auth");
    reveal_strlit("&redirect_uri=");
    reveal_strlit("&response_type=token&scope=");
    reveal_strlit("&prompt=consent&include_granted_scopes=true");
    reveal_strlit("client_id");
    reveal_strlit("redirect_uri");
    reveal_strlit("response_type");
    reveal_strlit("token");
    reveal_strlit("scope");
    reveal_strlit("prompt");
    reveal_strlit("consent");
    reveal_strlit("include_granted_scopes");
    reveal_strlit("true");
    assert(auth_url_spec() =~= auth_base() + seq!['?'] + auth_query());
}

proof fn lemma_auth_query_joined()
    ensures
        join_with(auth_pieces(), '&') == auth_query(),
{
    let ps = auth_pieces();
    reveal_with_fuel(join_with, 7);
    assert(ps.drop_last().drop_last().drop_last().drop_last().drop_last() =~= seq![ps[0]]);
    assert(ps.drop_last().drop_last().drop_last().drop_last() =~= seq![ps[0], ps[1]]);
    assert(ps.drop_last().drop_last().drop_last() =~= seq![ps[0], ps[1], ps[2]]);
    assert(ps.drop_last().drop_last() =~= seq![ps[0], ps[1], ps[2], ps[3]]);
    assert(ps.drop_last() =~= seq![ps[0], ps[1], ps[2], ps[3], ps[4]]);
    assert(join_with(auth_pieces(), '&') =~= auth_query());
}

proof fn lemma_auth_keys_plain()
    ensures
        !"client_id"@.contains('=') && !"client_id"@.contains('%') && !"client_id"@.contains('&'),
        !"redirect_uri"@.contains('=') && !"redirect_uri"@.contains('%') && !"redirect_uri"@.contains('&'),
        !"response_type"@.contains('=') && !"response_type"@.contains('%') && !"response_type"@.contains('&'),
        !"scope"@.contains('=') && !"scope"@.contains('%') && !"scope"@.contains('&'),
        !"prompt"@.contains('=') && !"prompt"@.contains('%') && !"prompt"@.contains('&'),
        !"include_granted_scopes"@.contains('=') && !"include_granted_scopes"@.contains('%')
            && !"include_granted_scopes"@.contains('&'),
{
    reveal_strlit("client_id");
    reveal_strlit("redirect_uri");
    reveal_strlit("response_type");
    reveal_strlit("scope");
    reveal_strlit("prompt");
    reveal_strlit("include_granted_scopes");
}

proof fn lemma_auth_values_plain()
    ensures
        !OAUTH_CLIENT_ID@.contains('%') && !OAUTH_CLIENT_ID@.contains('&'),
        !"token"@.contains('%') && !"token"@.contains('&'),
        !"consent"@.contains('%') && !"consent"@.contains('&'),
        !"true"@.contains('%') && !"true"@.contains('&'),
{
    reveal_strlit("637230075865-lfeagh9nb7j3v5p9a1ppk6mpi252b157.apps.googleusercontent.com");
    reveal_strlit("token");
    reveal_strlit("consent");
    reveal_strlit("true");
}

proof fn lemma_pieces_step(ps: Seq<Seq<char>>, k: int)
    requires
        0 <= k < ps.len(),
    ensures
        pieces_map(ps.take(k + 1)) == crate::query::with_piece(pieces_map(ps.take(k)), ps[k]),
{
    assert(ps.take(k + 1).drop_last() =~= ps.take(k));
    assert(ps.take(k + 1).last() == ps[k]);
}

proof fn lemma_auth_pieces_read()
    ensures
        pieces_map(auth_pieces()) == auth_params(),
        forall|i: int| 0 <= i < auth_pieces().len() ==> !(#[trigger] auth_pieces()[i]).contains('&'),
{
    lemma_auth_keys_plain();
    lemma_auth_values_plain();
    let ps = auth_pieces();
    let cid = OAUTH_CLIENT_ID@;
    let r = percent_encode(encode_utf8(OAUTH_REDIRECT@));
    let sc = percent_encode(encode_utf8(OAUTH_SCOPE@));
    law_encoded_has_no_separator(encode_utf8(OAUTH_REDIRECT@));
    law_encoded_has_no_separator(encode_utf8(OAUTH_SCOPE@));
    law_decode_undoes_encode(OAUTH_REDIRECT@);
    law_decode_undoes_encode(OAUTH_SCOPE@);
    crate::urlcodec::lemma_decode_plain(cid);
    crate::urlcodec::lemma_decode_plain("token"@);
    crate::urlcodec::lemma_decode_plain("consent"@);
    crate::urlcodec::lemma_decode_plain("true"@);
    let m0 = Map::<Seq<char>, Seq<char>>::empty();
    assert(ps.take(0) =~= Seq::<Seq<char>>::empty());
    lemma_pieces_step(ps, 0);
    lemma_pair_piece(m0, "client_id"@, cid);
    let m1 = m0.insert("client_id"@, cid);
    lemma_pieces_step(ps, 1);
    lemma_pair_piece(m1, "redirect_uri"@, r);
    let m2 = m1.insert("redirect_uri"@, OAUTH_REDIRECT@);
    lemma_pieces_step(ps, 2);
    lemma_pair_piece(m2, "response_type"@, "token"@);
    let m3 = m2.insert("response_type"@, "token"@);
    lemma_pieces_step(ps, 3);
    lemma_pair_piece(m3, "scope"@, sc);
    let m4 = m3.insert("scope"@, OAUTH_SCOPE@);
    lemma_pieces_step(ps, 4);
    lemma_pair_piece(m4, "prompt"@, "consent"@);
    let m5 = m4.insert("prompt"@, "consent"@);
    lemma_pieces_step(ps, 5);
    lemma_pair_piece(m5, "include_granted_scopes"@, "true"@);
    let m6 = m5.insert("include_granted_scopes"@, "true"@);
    assert(ps.take(6) =~= ps);
    assert(pieces_map(ps) == m6);
    assert(m6 =~= auth_params());
}

/// The authorisation URL is Google's endpoint and a query that parses back
/// to the client, the redirect, the implicit grant, the scope, forced
/// consent and granted scopes.
pub proof fn law_auth_url_parses_back()
    ensures
        before_first(auth_url_spec(), '?') == auth_base(),
        query_map(after_first(auth_url_spec(), '?')) == auth_params(),
{
    lemma_auth_url_shape();
    lemma_auth_query_joined();
    lemma_auth_pieces_read();
    let base = auth_base();
    let u = auth_url_spec();
    assert forall|k: int| 0 <= k < base.len() implies u[k] != '?' by {
        assert(u[k] == base[k]);
    }
    assert(u[base.len() as int] == '?');
    crate::query::lemma_first_at_pub(u, '?', base.len() as int);
    assert(u.take(base.len() as int) =~= base);
    assert(u.skip(base.len() as int + 1) =~= auth_query());
    lemma_split_join(auth_pieces(), '&');
}

} // verus!
