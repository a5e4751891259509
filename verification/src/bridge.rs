//! Routing of the bridge's requests, and what each endpoint answers given
//! what the program around it did.

use vstd::prelude::*;
use crate::body::{json_member_str, member_str};
use crate::json::{Json, JsonV, array, fail_json, fail_v, field_models, jstr, lemma_field_models, lemma_models, member, models, object, ok_json, ok_v};
use crate::mime::{mime_of, mime_spec};
use crate::query::QueryMap;
use crate::reply::{Reply, ReplyV, json_any, json_portal, reply_any};
use crate::oauth::{OAUTH_CALLBACK_HTML, SlotV, TokenStore, auth_url_spec, body_expires_in, body_token, callback_page, oauth_auth_url, store_spec, token_spec};
use crate::text::{owned, starts_with, str_eq};

verus! {

/// The request methods the bridge tells apart.
#[derive(Debug, PartialEq, Eq)]
pub enum Verb {
    Get,
    Post,
    Options,
    Other,
}

/// The endpoints of the bridge.
#[derive(Debug, PartialEq, Eq)]
pub enum Endpoint {
    /// A CORS preflight (any `OPTIONS` request).
    Preflight,
    Ping,
    StartDrag,
    Minimize,
    ToggleMaximize,
    IsMaximized,
    Hide,
    Badge,
    OpenExternal,
    OpenWindow,
    UpdateCheck,
    UpdateApply,
    OAuthStart,
    OAuthCallback,
    OAuthStore,
    OAuthToken,
    Drives,
    List,
    Open,
    Reveal,
    Read,
    Copy,
    Move,
    Save,
    Unknown,
}

/// The endpoint a request goes to: every `OPTIONS` request is a preflight;
/// otherwise the path decides.
pub open spec fn endpoint_spec(verb: Verb, path: Seq<char>) -> Endpoint {
    if verb is Options {
        Endpoint::Preflight
    } else if path == "/ping"@ {
        Endpoint::Ping
    } else if path == "/win/start-drag"@ {
        Endpoint::StartDrag
    } else if path == "/win/minimize"@ {
        Endpoint::Minimize
    } else if path == "/win/toggle-maximize"@ {
        Endpoint::ToggleMaximize
    } else if path == "/win/is-maximized"@ {
        Endpoint::IsMaximized
    } else if path == "/win/hide"@ {
        Endpoint::Hide
    } else if path == "/win/badge"@ {
        Endpoint::Badge
    } else if path == "/win/open-external"@ {
        Endpoint::OpenExternal
    } else if path == "/win/open-window"@ {
        Endpoint::OpenWindow
    } else if path == "/win/update/check"@ {
        Endpoint::UpdateCheck
    } else if path == "/win/update/apply"@ {
        Endpoint::UpdateApply
    } else if path == "/oauth/start"@ {
        Endpoint::OAuthStart
    } else if path == "/oauth2callback"@ {
        Endpoint::OAuthCallback
    } else if path == "/oauth/store"@ {
        Endpoint::OAuthStore
    } else if path == "/oauth/token"@ {
        Endpoint::OAuthToken
    } else if path == "/drives"@ {
        Endpoint::Drives
    } else if path == "/ls"@ {
        Endpoint::List
    } else if path == "/open"@ {
        Endpoint::Open
    } else if path == "/reveal"@ {
        Endpoint::Reveal
    } else if path == "/read"@ {
        Endpoint::Read
    } else if path == "/copy"@ {
        Endpoint::Copy
    } else if path == "/move"@ {
        Endpoint::Move
    } else if path == "/save"@ {
        Endpoint::Save
    } else {
        Endpoint::Unknown
    }
}

/// Routes a request by its method and path.
pub fn endpoint_of(verb: &Verb, path: &str) -> (e: Endpoint)
    ensures
        e == endpoint_spec(*verb, path@),
{
    if let Verb::Options = verb {
        Endpoint::Preflight
    } else if str_eq(path, "/ping") {
        Endpoint::Ping
    } else if str_eq(path, "/win/start-drag") {
        Endpoint::StartDrag
    } else if str_eq(path, "/win/minimize") {
        Endpoint::Minimize
    } else if str_eq(path, "/win/toggle-maximize") {
        Endpoint::ToggleMaximize
    } else if str_eq(path, "/win/is-maximized") {
        Endpoint::IsMaximized
    } else if str_eq(path, "/win/hide") {
        Endpoint::Hide
    } else if str_eq(path, "/win/badge") {
        Endpoint::Badge
    } else if str_eq(path, "/win/open-external") {
        Endpoint::OpenExternal
    } else if str_eq(path, "/win/open-window") {
        Endpoint::OpenWindow
    } else if str_eq(path, "/win/update/check") {
        Endpoint::UpdateCheck
    } else if str_eq(path, "/win/update/apply") {
        Endpoint::UpdateApply
    } else if str_eq(path, "/oauth/start") {
        Endpoint::OAuthStart
    } else if str_eq(path, "/oauth2callback") {
        Endpoint::OAuthCallback
    } else if str_eq(path, "/oauth/store") {
        Endpoint::OAuthStore
    } else if str_eq(path, "/oauth/token") {
        Endpoint::OAuthToken
    } else if str_eq(path, "/drives") {
        Endpoint::Drives
    } else if str_eq(path, "/ls") {
        Endpoint::List
    } else if str_eq(path, "/open") {
        Endpoint::Open
    } else if str_eq(path, "/reveal") {
        Endpoint::Reveal
    } else if str_eq(path, "/read") {
        Endpoint::Read
    } else if str_eq(path, "/copy") {
        Endpoint::Copy
    } else if str_eq(path, "/move") {
        Endpoint::Move
    } else if str_eq(path, "/save") {
        Endpoint::Save
    } else {
        Endpoint::Unknown
    }
}

/// Whether the request's body is read as JSON: for storing a token, for
/// copying and moving, and for posted links and window routes.
pub open spec fn reads_json_body_spec(e: Endpoint, verb: Verb) -> bool {
    ||| e is OAuthStore
    ||| e is Copy
    ||| e is Move
    ||| (e is OpenExternal || e is OpenWindow) && verb is Post
}

/// Whether the request's body is to be read as JSON.
pub fn reads_json_body(e: &Endpoint, verb: &Verb) -> (r: bool)
    ensures
        r == reads_json_body_spec(*e, *verb),
{
    match e {
        Endpoint::OAuthStore | Endpoint::Copy | Endpoint::Move => true,
        Endpoint::OpenExternal | Endpoint::OpenWindow => match verb {
            Verb::Post => true,
            _ => false,
        },
        _ => false,
    }
}

/// The value of `k` in a decoded query, if present.
pub open spec fn query_get(m: Map<Seq<char>, Seq<char>>, k: Seq<char>) -> Option<Seq<char>> {
    if m.contains_key(k) {
        Some(m[k])
    } else {
        None
    }
}

/// The view of an optional string.
pub open spec fn opt_view(o: Option<String>) -> Option<Seq<char>> {
    match o {
        Some(s) => Some(s@),
        None => None,
    }
}

/// A query parameter, copied.
pub fn query_param(q: &QueryMap, key: &str) -> (r: Option<String>)
    ensures
        opt_view(r) == query_get(q@, key@),
{
    match q.get(key) {
        Some(v) => Some(v.clone()),
        None => None,
    }
}

/// A request parameter: from the JSON body of a `POST`, from the query
/// otherwise.
pub fn request_param(verb: &Verb, body: &str, q: &QueryMap, key: &str) -> (r: Option<String>)
    ensures
        opt_view(r) == (if *verb is Post { json_member_str(body@, key@) } else { query_get(q@, key@) }),
{
    match verb {
        Verb::Post => member_str(body, key),
        _ => query_param(q, key),
    }
}

/// The window that `/win/start-drag` drags: `win`, or the main window.
pub fn drag_window(q: &QueryMap) -> (r: String)
    ensures
        r@ == (match query_get(q@, "win"@) {
            Some(w) => w,
            None => "main"@,
        }),
{
    match query_param(q, "win") {
        Some(w) => w,
        None => owned("main"),
    }
}

/// Whether `/win/badge` turns the badge on: `on` is `1` or `true`.
pub fn badge_on(q: &QueryMap) -> (r: bool)
    ensures
        r == (query_get(q@, "on"@) == Some("1"@) || query_get(q@, "on"@) == Some("true"@)),
{
    match q.get("on") {
        Some(v) => str_eq(v.as_str(), "1") || str_eq(v.as_str(), "true"),
        None => false,
    }
}

/// Whether a link is one the system browser may open.
pub open spec fn is_web_link(u: Seq<char>) -> bool {
    ("http://"@.len() <= u.len() && u.take("http://"@.len() as int) == "http://"@)
        || ("https://"@.len() <= u.len() && u.take("https://"@.len() as int) == "https://"@)
}

/// The link `/win/open-external` opens: only an `http://` or `https://` one.
pub fn external_target(candidate: Option<String>) -> (r: Option<String>)
    ensures
        opt_view(r) == (match opt_view(candidate) {
            Some(u) => if is_web_link(u) { Some(u) } else { None },
            None => None,
        }),
{
    match candidate {
        Some(u) => {
            if starts_with(u.as_str(), "http://") || starts_with(u.as_str(), "https://") {
                Some(u)
            } else {
                None
            }
        },
        None => None,
    }
}

/// The reply of `/win/open-external`: whether the link was opened, or a
/// refusal where there was no web link to open.
pub fn open_external_reply(opened: Option<bool>) -> (r: Reply)
    ensures
        r@ == json_any(match opened {
            Some(b) => ok_v(b),
            None => fail_v("need http(s) url"@),
        }),
{
    match opened {
        Some(b) => reply_any(ok_json(b)),
        None => reply_any(fail_json("need http(s) url")),
    }
}

/// The route `/win/open-window` opens: the one given, or `/`.
pub fn window_route(candidate: Option<String>) -> (r: String)
    ensures
        r@ == (match opt_view(candidate) {
            Some(x) => x,
            None => "/"@,
        }),
{
    match candidate {
        Some(x) => x,
        None => owned("/"),
    }
}

/// `{"ok": true, "maximized": m}`.
pub open spec fn maximized_v(m: bool) -> JsonV {
    JsonV::Obj(seq![("ok"@, JsonV::Bool(true)), ("maximized"@, JsonV::Bool(m))])
}

/// The reply that reports whether the main window is maximized.
pub fn maximized_reply(m: bool) -> (r: Reply)
    ensures
        r@ == json_any(maximized_v(m)),
{
    let mut v = Vec::new();
    v.push(member("ok", Json::Bool(true)));
    v.push(member("maximized", Json::Bool(m)));
    proof {
        lemma_field_models(v@);
        assert(field_models(v@) =~= seq![("ok"@, JsonV::Bool(true)), ("maximized"@, JsonV::Bool(m))]);
    }
    reply_any(object(v))
}

/// What `/win/toggle-maximize` does to the main window.
#[derive(Debug, PartialEq, Eq)]
pub enum WindowOp {
    Maximize,
    Unmaximize,
}

/// Toggles the main window: a maximized window is restored, any other
/// maximized; the reply gives the new state.
pub fn toggle_maximize(was_maximized: bool) -> (r: (WindowOp, Reply))
    ensures
        was_maximized ==> r.0 is Unmaximize,
        !was_maximized ==> r.0 is Maximize,
        r.1@ == json_any(maximized_v(!was_maximized)),
{
    let op = if was_maximized { WindowOp::Unmaximize } else { WindowOp::Maximize };
    (op, maximized_reply(!was_maximized))
}

/// What the bridge can do, as `/ping` lists it.
pub open spec fn caps_v() -> Seq<JsonV> {
    seq![
        JsonV::Str("file"@),
        JsonV::Str("win"@),
        JsonV::Str("badge"@),
        JsonV::Str("child"@),
        JsonV::Str("update"@),
        JsonV::Str("oauth"@),
    ]
}

/// The reply of `/ping`.
pub open spec fn ping_v(version: Seq<char>) -> JsonV {
    JsonV::Obj(seq![
        ("ok"@, JsonV::Bool(true)),
        ("bridge"@, JsonV::Str("huali-portal-embedded"@)),
        ("version"@, JsonV::Str(version)),
        ("caps"@, JsonV::Arr(caps_v())),
    ])
}

/// The reply of `/ping`: the bridge's name, the shell's version and what the
/// bridge can do.
pub fn ping_reply(version: &str) -> (r: Reply)
    ensures
        r@ == json_any(ping_v(version@)),
{
    let mut caps = Vec::new();
    caps.push(jstr("file"));
    caps.push(jstr("win"));
    caps.push(jstr("badge"));
    caps.push(jstr("child"));
    caps.push(jstr("update"));
    caps.push(jstr("oauth"));
    proof {
        lemma_models(caps@);
        assert(models(caps@) =~= caps_v());
    }
    let mut v = Vec::new();
    v.push(member("ok", Json::Bool(true)));
    v.push(member("bridge", jstr("huali-portal-embedded")));
    v.push(member("version", jstr(version)));
    v.push(member("caps", array(caps)));
    proof {
        lemma_field_models(v@);
        assert(field_models(v@) =~= seq![
            ("ok"@, JsonV::Bool(true)),
            ("bridge"@, JsonV::Str("huali-portal-embedded"@)),
            ("version"@, JsonV::Str(version@)),
            ("caps"@, JsonV::Arr(caps_v())),
        ]);
    }
    reply_any(object(v))
}

/// What `/ls` lists.
#[derive(Debug, PartialEq, Eq)]
pub enum ListPlan {
    /// The drives (no path, or an empty one).
    Drives,
    /// The directory at `path`, descending into subdirectories if `recursive`.
    Dir { path: String, recursive: bool },
}

/// Plans `/ls`: a non-empty `path` lists that directory (recursively where
/// `recursive` is `true`); otherwise the drives are listed.
pub fn list_plan(q: &QueryMap) -> (p: ListPlan)
    ensures
        match query_get(q@, "path"@) {
            Some(path) => if path.len() > 0 {
                p matches ListPlan::Dir { path: pp, recursive } && pp@ == path
                    && recursive == (query_get(q@, "recursive"@) == Some("true"@))
            } else {
                p is Drives
            },
            None => p is Drives,
        },
{
    match q.get("path") {
        Some(p) => {
            if p.as_str().is_empty() {
                ListPlan::Drives
            } else {
                let recursive = match q.get("recursive") {
                    Some(r) => str_eq(r.as_str(), "true"),
                    None => false,
                };
                ListPlan::Dir { path: p.clone(), recursive }
            }
        },
        None => ListPlan::Drives,
    }
}

/// The reply of `/read` once the file at `path` was read: its bytes with
/// the media type its name gives, or the error.
pub fn read_reply(path: &str, outcome: Result<(), String>) -> (r: Reply)
    ensures
        match outcome {
            Ok(_) => r@ == ReplyV::File { mime: mime_spec(path@) },
            Err(e) => r@ == json_any(fail_v(e@)),
        },
{
    match outcome {
        Ok(_) => Reply::File { mime: owned(mime_of(path)) },
        Err(e) => reply_any(fail_json(e.as_str())),
    }
}

/// The reply for a missing file or path.
pub fn not_found_reply() -> (r: Reply)
    ensures
        r@ == json_any(fail_v("not found"@)),
{
    reply_any(fail_json("not found"))
}

/// The source and destination of `/copy` and `/move`, from the JSON body;
/// `None` where either is missing or empty.
pub fn transfer_request(body: &str) -> (r: Option<(String, String)>)
    ensures
        match (json_member_str(body@, "src"@), json_member_str(body@, "dst"@)) {
            (Some(s), Some(d)) => if s.len() > 0 && d.len() > 0 {
                r matches Some((rs, rd)) && rs@ == s && rd@ == d
            } else {
                r is None
            },
            _ => r is None,
        },
{
    let src = member_str(body, "src");
    let dst = member_str(body, "dst");
    match (src, dst) {
        (Some(s), Some(d)) => {
            if s.as_str().is_empty() || d.as_str().is_empty() {
                None
            } else {
                Some((s, d))
            }
        },
        _ => None,
    }
}

/// The reply to a copy or move without both paths.
pub fn transfer_refused_reply() -> (r: Reply)
    ensures
        r@ == json_any(fail_v("need src & dst"@)),
{
    reply_any(fail_json("need src & dst"))
}

/// `{"ok": true, "target": t}`.
pub open spec fn moved_v(t: Seq<char>) -> JsonV {
    JsonV::Obj(seq![("ok"@, JsonV::Bool(true)), ("target"@, JsonV::Str(t))])
}

/// The reply of `/copy` and `/move`: where the file now is, or the error.
pub fn transfer_reply(outcome: Result<String, String>) -> (r: Reply)
    ensures
        match outcome {
            Ok(t) => r@ == json_any(moved_v(t@)),
            Err(e) => r@ == json_any(fail_v(e@)),
        },
{
    match outcome {
        Ok(t) => {
            let mut v = Vec::new();
            v.push(member("ok", Json::Bool(true)));
            v.push(member("target", jstr(t.as_str())));
            proof {
                lemma_field_models(v@);
                assert(field_models(v@) =~= seq![("ok"@, JsonV::Bool(true)), ("target"@, JsonV::Str(t@))]);
            }
            reply_any(object(v))
        },
        Err(e) => reply_any(fail_json(e.as_str())),
    }
}

/// Where `/save` writes: a non-empty `path`.
pub fn save_target(q: &QueryMap) -> (r: Option<String>)
    ensures
        opt_view(r) == (match query_get(q@, "path"@) {
            Some(p) => if p.len() > 0 { Some(p) } else { None },
            None => None,
        }),
{
    match q.get("path") {
        Some(p) => if p.as_str().is_empty() {
            None
        } else {
            Some(p.clone())
        },
        None => None,
    }
}

/// `{"ok": true, "path": p, "bytes": n}`.
pub open spec fn saved_v(p: Seq<char>, n: u64) -> JsonV {
    JsonV::Obj(seq![("ok"@, JsonV::Bool(true)), ("path"@, JsonV::Str(p)), ("bytes"@, JsonV::Num(n))])
}

/// The reply of `/save`: where and how many bytes were written, or the error.
pub fn save_reply(path: &str, outcome: Result<u64, String>) -> (r: Reply)
    ensures
        match outcome {
            Ok(n) => r@ == json_any(saved_v(path@, n)),
            Err(e) => r@ == json_any(fail_v(e@)),
        },
{
    match outcome {
        Ok(n) => {
            let mut v = Vec::new();
            v.push(member("ok", Json::Bool(true)));
            v.push(member("path", jstr(path)));
            v.push(member("bytes", Json::Num(n)));
            proof {
                lemma_field_models(v@);
                assert(field_models(v@) =~= seq![("ok"@, JsonV::Bool(true)), ("path"@, JsonV::Str(path@)), ("bytes"@, JsonV::Num(n))]);
            }
            reply_any(object(v))
        },
        Err(e) => reply_any(fail_json(e.as_str())),
    }
}

/// The reply to `/save` without a path.
pub fn save_refused_reply() -> (r: Reply)
    ensures
        r@ == json_any(fail_v("need path"@)),
{
    reply_any(fail_json("need path"))
}

/// The reply to an unknown path.
pub fn unknown_reply() -> (r: Reply)
    ensures
        r@ == json_any(fail_v("unknown"@)),
{
    reply_any(fail_json("unknown"))
}

/// The reply to a preflight, and to the window requests that only start
/// something.
pub fn done_reply(ok: bool) -> (r: Reply)
    ensures
        r@ == json_any(ok_v(ok)),
{
    reply_any(ok_json(ok))
}

/// What checking for an update found.
#[derive(Debug, PartialEq, Eq)]
pub enum UpdateCheck {
    Available { version: String, notes: Option<String> },
    Current,
    Failed(String),
}

/// Release notes: a string, or `null`.
pub open spec fn notes_v(n: Option<Seq<char>>) -> JsonV {
    match n {
        Some(t) => JsonV::Str(t),
        None => JsonV::Null,
    }
}

/// The reply of `/win/update/check`.
pub open spec fn update_check_v(o: UpdateCheck) -> JsonV {
    match o {
        UpdateCheck::Available { version, notes } => JsonV::Obj(seq![
            ("ok"@, JsonV::Bool(true)),
            ("available"@, JsonV::Bool(true)),
            ("version"@, JsonV::Str(version@)),
            ("notes"@, notes_v(opt_view(notes))),
        ]),
        UpdateCheck::Current => JsonV::Obj(seq![("ok"@, JsonV::Bool(true)), ("available"@, JsonV::Bool(false))]),
        UpdateCheck::Failed(m) => JsonV::Obj(seq![
            ("ok"@, JsonV::Bool(false)),
            ("available"@, JsonV::Bool(false)),
            ("msg"@, JsonV::Str(m@)),
        ]),
    }
}

/// The reply of `/win/update/check`: whether an update is available, its
/// version and notes, or why the check failed.
pub fn update_check_reply(o: UpdateCheck) -> (r: Reply)
    ensures
        r@ == json_any(update_check_v(o)),
{
    let ghost o0 = o;
    let mut v = Vec::new();
    match o {
        UpdateCheck::Available { version, notes } => {
            let ghost nv = notes_v(opt_view(notes));
            let n = match notes {
                Some(n) => Json::Str(n),
                None => Json::Null,
            };
            assert(n@ == nv);
            v.push(member("ok", Json::Bool(true)));
            v.push(member("available", Json::Bool(true)));
            v.push(member("version", Json::Str(version)));
            v.push(member("notes", n));
            proof {
                lemma_field_models(v@);
                assert(field_models(v@) =~= seq![
                    ("ok"@, JsonV::Bool(true)),
                    ("available"@, JsonV::Bool(true)),
                    ("version"@, JsonV::Str(version@)),
                    ("notes"@, nv),
                ]);
            }
        },
        UpdateCheck::Current => {
            v.push(member("ok", Json::Bool(true)));
            v.push(member("available", Json::Bool(false)));
            proof {
                lemma_field_models(v@);
                assert(field_models(v@) =~= seq![("ok"@, JsonV::Bool(true)), ("available"@, JsonV::Bool(false))]);
            }
        },
        UpdateCheck::Failed(m) => {
            v.push(member("ok", Json::Bool(false)));
            v.push(member("available", Json::Bool(false)));
            v.push(member("msg", Json::Str(m)));
            proof {
                lemma_field_models(v@);
                assert(field_models(v@) =~= seq![
                    ("ok"@, JsonV::Bool(false)),
                    ("available"@, JsonV::Bool(false)),
                    ("msg"@, JsonV::Str(m@)),
                ]);
            }
        },
    }
    reply_any(object(v))
}

/// What follows an attempt to install an update.
#[derive(Debug, PartialEq, Eq)]
pub enum ApplyStep {
    /// The update is installed: restart the shell.
    Restart,
    /// Answer with this reply.
    Answer(Reply),
}

/// Decides what follows an update attempt: restart once one was installed;
/// otherwise say that the shell is current, or why it failed.
pub fn update_apply_step(outcome: Result<bool, String>) -> (s: ApplyStep)
    ensures
        match outcome {
            Ok(true) => s is Restart,
            Ok(false) => s matches ApplyStep::Answer(r) && r@ == json_any(JsonV::Obj(seq![
                ("ok"@, JsonV::Bool(true)),
                ("applied"@, JsonV::Bool(false)),
                ("msg"@, JsonV::Str("已是最新版"@)),
            ])),
            Err(e) => s matches ApplyStep::Answer(r) && r@ == json_any(fail_v(e@)),
        },
{
    match outcome {
        Ok(true) => ApplyStep::Restart,
        Ok(false) => {
            let mut v = Vec::new();
            v.push(member("ok", Json::Bool(true)));
            v.push(member("applied", Json::Bool(false)));
            v.push(member("msg", jstr("已是最新版")));
            proof {
                lemma_field_models(v@);
                assert(field_models(v@) =~= seq![
                    ("ok"@, JsonV::Bool(true)),
                    ("applied"@, JsonV::Bool(false)),
                    ("msg"@, JsonV::Str("已是最新版"@)),
                ]);
            }
            ApplyStep::Answer(reply_any(object(v)))
        },
        Err(e) => ApplyStep::Answer(reply_any(fail_json(e.as_str()))),
    }
}

/// What the program around the library does for a request before it
/// answers.
#[allow(inconsistent_fields)]
#[derive(Debug, PartialEq, Eq)]
pub enum Plan {
    /// Answer at once.
    Answer(Reply),
    /// Answer `/ping` with the shell's version.
    Ping,
    /// Start dragging this window; answer `{"ok": true}`.
    StartDrag { window: String },
    /// Minimize the main window; answer `{"ok": true}`.
    Minimize,
    /// Ask whether the main window is maximized, then toggle it.
    ToggleMaximize,
    /// Ask whether the main window is maximized, and say so.
    IsMaximized,
    /// Hide the main window; answer `{"ok": true}`.
    Hide,
    /// Set the main window's badge to this count; answer `{"ok": true}`.
    Badge { count: Option<i64> },
    /// Open this web link in the system browser (refuse where there is none).
    OpenExternal { url: Option<String> },
    /// Open this portal route in its own window; answer `{"ok": true}`.
    OpenWindow { route: String },
    /// Check for an update.
    UpdateCheck,
    /// Download and install an update.
    UpdateApply,
    /// Clear the token slot and open this authorisation URL.
    OAuthStart { auth_url: String },
    /// Store the token the body carries.
    OAuthStore,
    /// Hand out the stored token.
    OAuthToken,
    /// List the drives.
    Drives,
    /// List a directory.
    ListDir { path: String, recursive: bool },
    /// Open (or, with `reveal`, show in the file manager) this path.
    Open { path: Option<String>, reveal: bool },
    /// Send the file at this path.
    Read { path: Option<String> },
    /// Copy (or move) `src` into the directory `dst`.
    Transfer { paths: Option<(String, String)>, copy: bool },
    /// Write the request body to this path.
    Save { path: Option<String> },
}

/// Decides what a request comes to, given its endpoint, method, decoded
/// query and body (the body is read only where `reads_json_body` says so;
/// it is empty otherwise).
pub fn plan_request(e: &Endpoint, verb: &Verb, q: &QueryMap, body: &str) -> (p: Plan)
    ensures
        *e is Preflight ==> (p matches Plan::Answer(r) && r@ == json_any(ok_v(true))),
        *e is Ping ==> p is Ping,
        *e is StartDrag ==> (p matches Plan::StartDrag { window } && window@ == (match query_get(q@, "win"@) {
            Some(w) => w,
            None => "main"@,
        })),
        *e is Minimize ==> p is Minimize,
        *e is ToggleMaximize ==> p is ToggleMaximize,
        *e is IsMaximized ==> p is IsMaximized,
        *e is Hide ==> p is Hide,
        *e is Badge ==> (p matches Plan::Badge { count } && count == (if query_get(q@, "on"@) == Some("1"@)
            || query_get(q@, "on"@) == Some("true"@) { Some(1i64) } else { None })),
        *e is OpenExternal ==> (p matches Plan::OpenExternal { url } && opt_view(url) == (match (if *verb is Post {
            json_member_str(body@, "url"@)
        } else {
            query_get(q@, "url"@)
        }) {
            Some(u) => if is_web_link(u) { Some(u) } else { None },
            None => None,
        })),
        *e is OpenWindow ==> (p matches Plan::OpenWindow { route } && route@ == (match (if *verb is Post {
            json_member_str(body@, "route"@)
        } else {
            query_get(q@, "route"@)
        }) {
            Some(x) => x,
            None => "/"@,
        })),
        *e is UpdateCheck ==> p is UpdateCheck,
        *e is UpdateApply ==> p is UpdateApply,
        *e is OAuthStart ==> (p matches Plan::OAuthStart { auth_url } && auth_url@ == auth_url_spec()),
        *e is OAuthCallback ==> (p matches Plan::Answer(r) && r@ == ReplyV::Html(OAUTH_CALLBACK_HTML@)),
        *e is OAuthStore ==> p is OAuthStore,
        *e is OAuthToken ==> p is OAuthToken,
        *e is Drives ==> p is Drives,
        *e is List ==> (match query_get(q@, "path"@) {
            Some(path) => if path.len() > 0 {
                p matches Plan::ListDir { path: pp, recursive } && pp@ == path
                    && recursive == (query_get(q@, "recursive"@) == Some("true"@))
            } else {
                p is Drives
            },
            None => p is Drives,
        }),
        *e is Open ==> (p matches Plan::Open { path, reveal } && !reveal && opt_view(path) == query_get(q@, "path"@)),
        *e is Reveal ==> (p matches Plan::Open { path, reveal } && reveal && opt_view(path) == query_get(q@, "path"@)),
        *e is Read ==> (p matches Plan::Read { path } && opt_view(path) == query_get(q@, "path"@)),
        (*e is Copy || *e is Move) ==> (p matches Plan::Transfer { paths, copy } && copy == (*e is Copy)
            && match (json_member_str(body@, "src"@), json_member_str(body@, "dst"@)) {
                (Some(s), Some(d)) => if s.len() > 0 && d.len() > 0 {
                    paths matches Some((rs, rd)) && rs@ == s && rd@ == d
                } else {
                    paths is None
                },
                _ => paths is None,
            }),
        *e is Save ==> (p matches Plan::Save { path } && opt_view(path) == (match query_get(q@, "path"@) {
            Some(x) => if x.len() > 0 { Some(x) } else { None },
            None => None,
        })),
        *e is Unknown ==> (p matches Plan::Answer(r) && r@ == json_any(fail_v("unknown"@))),
{
    match e {
        Endpoint::Preflight => Plan::Answer(done_reply(true)),
        Endpoint::Ping => Plan::Ping,
        Endpoint::StartDrag => Plan::StartDrag { window: drag_window(q) },
        Endpoint::Minimize => Plan::Minimize,
        Endpoint::ToggleMaximize => Plan::ToggleMaximize,
        Endpoint::IsMaximized => Plan::IsMaximized,
        Endpoint::Hide => Plan::Hide,
        Endpoint::Badge => Plan::Badge { count: crate::window::badge_count(badge_on(q)) },
        Endpoint::OpenExternal => Plan::OpenExternal { url: external_target(request_param(verb, body, q, "url")) },
        Endpoint::OpenWindow => Plan::OpenWindow { route: window_route(request_param(verb, body, q, "route")) },
        Endpoint::UpdateCheck => Plan::UpdateCheck,
        Endpoint::UpdateApply => Plan::UpdateApply,
        Endpoint::OAuthStart => Plan::OAuthStart { auth_url: oauth_auth_url() },
        Endpoint::OAuthCallback => Plan::Answer(callback_page()),
        Endpoint::OAuthStore => Plan::OAuthStore,
        Endpoint::OAuthToken => Plan::OAuthToken,
        Endpoint::Drives => Plan::Drives,
        Endpoint::List => match list_plan(q) {
            ListPlan::Drives => Plan::Drives,
            ListPlan::Dir { path, recursive } => Plan::ListDir { path, recursive },
        },
        Endpoint::Open => Plan::Open { path: query_param(q, "path"), reveal: false },
        Endpoint::Reveal => Plan::Open { path: query_param(q, "path"), reveal: true },
        Endpoint::Read => Plan::Read { path: query_param(q, "path") },
        Endpoint::Copy => Plan::Transfer { paths: transfer_request(body), copy: true },
        Endpoint::Move => Plan::Transfer { paths: transfer_request(body), copy: false },
        Endpoint::Save => Plan::Save { path: save_target(q) },
        Endpoint::Unknown => Plan::Answer(unknown_reply()),
    }
}

/// What a request does to the token slot, and the reply that reads or
/// writes it: `/oauth/start` empties the slot (its reply says whether the
/// browser opened); `/oauth/store` stores the body's token; `/oauth/token`
/// hands it out to the portal; every other request leaves the slot alone.
pub open spec fn token_step_spec(slot: SlotV, e: Endpoint, body: Seq<char>, now: u128) -> (SlotV, Option<ReplyV>) {
    match e {
        Endpoint::OAuthStart => (None, None),
        Endpoint::OAuthStore => {
            let r = store_spec(slot, body_token(body), body_expires_in(body), now);
            (r.0, Some(json_any(r.1)))
        },
        Endpoint::OAuthToken => (slot, Some(json_portal(token_spec(slot, now)))),
        _ => (slot, None),
    }
}

/// The view of an optional reply.
pub open spec fn opt_reply_view(r: Option<Reply>) -> Option<ReplyV> {
    match r {
        Some(x) => Some(x@),
        None => None,
    }
}

/// Applies a request to the token slot, as `token_step_spec` says.
pub fn token_step(store: &mut TokenStore, e: &Endpoint, body: &str, now: u128) -> (r: Option<Reply>)
    requires
        now + 18_446_744_073_709_551_615u128 * 1000 <= u128::MAX,
    ensures
        final(store)@ == token_step_spec(old(store)@, *e, body@, now).0,
        opt_reply_view(r) == token_step_spec(old(store)@, *e, body@, now).1,
{
    match e {
        Endpoint::OAuthStart => {
            store.clear();
            None
        },
        Endpoint::OAuthStore => Some(store.accept(body, now)),
        Endpoint::OAuthToken => Some(store.token_reply(now)),
        _ => None,
    }
}

/// A request as far as the token slot is concerned.
pub type TokenRequest = (Endpoint, Seq<char>, u128);

/// The slot after a sequence of requests.
pub open spec fn run_requests(slot: SlotV, reqs: Seq<TokenRequest>) -> SlotV
    decreases reqs.len(),
{
    if reqs.len() == 0 {
        slot
    } else {
        let last = reqs.last();
        token_step_spec(run_requests(slot, reqs.drop_last()), last.0, last.1, last.2).0
    }
}

/// The slot is empty or holds a non-empty token.
pub open spec fn slot_ok(slot: SlotV) -> bool {
    match slot {
        Some((t, _)) => t.len() > 0,
        None => true,
    }
}

/// Whether a request stores a token.
pub open spec fn stores_token(r: TokenRequest) -> bool {
    r.0 is OAuthStore && body_token(r.1).len() > 0
}

/// Only `/oauth/start`, and `/oauth/store` with a non-empty token, change
/// the slot; the slot, empty at start, only ever holds a non-empty token,
/// whatever requests come.
pub proof fn law_slot_changes(slot: SlotV, reqs: Seq<TokenRequest>)
    ensures
        slot_ok(slot) ==> slot_ok(run_requests(slot, reqs)),
        slot_ok(run_requests(None, reqs)),
        reqs.len() > 0 && run_requests(slot, reqs) != run_requests(slot, reqs.drop_last())
            ==> reqs.last().0 is OAuthStart || stores_token(reqs.last()),
    decreases reqs.len(),
{
    if reqs.len() > 0 {
        law_slot_changes(slot, reqs.drop_last());
        law_slot_changes(None, reqs.drop_last());
    }
}

/// After `/oauth/start`, and until a store with a non-empty token, the slot
/// is empty, and every `/oauth/token` is answered `{"ok": false}`.
pub proof fn law_start_then_no_token(slot: SlotV, reqs: Seq<TokenRequest>, k: int)
    requires
        0 < k < reqs.len(),
        reqs[0].0 is OAuthStart,
        forall|i: int| 0 < i < k ==> !stores_token(#[trigger] reqs[i]),
    ensures
        run_requests(slot, reqs.take(k)) is None,
        reqs[k].0 is OAuthToken ==> token_step_spec(run_requests(slot, reqs.take(k)), reqs[k].0, reqs[k].1, reqs[k].2).1
            == Some(json_portal(ok_v(false))),
    decreases k,
{
    let t = reqs.take(k);
    assert(t.drop_last() =~= reqs.take(k - 1));
    assert(t.last() == reqs[k - 1]);
    if k == 1 {
        assert(reqs.take(0) =~= Seq::<TokenRequest>::empty());
    } else {
        law_start_then_no_token(slot, reqs, k - 1);
        assert(!stores_token(reqs[k - 1]));
    }
}

/// Of all replies, only that of `/oauth/token` depends on the slot, so no
/// other reply can carry the token; and that one is for the portal alone.
pub proof fn law_token_read_only_at_token_endpoint(s1: SlotV, s2: SlotV, e: Endpoint, body: Seq<char>, now: u128)
    ensures
        !(e is OAuthToken) ==> token_step_spec(s1, e, body, now).1 == token_step_spec(s2, e, body, now).1,
        e is OAuthToken ==> token_step_spec(s1, e, body, now).1 == Some(json_portal(token_spec(s1, now))),
{
}

/// A token posted at `t0` with a lifetime of `e` seconds is kept until
/// `t0 + e * 1000` milliseconds; a poll at `t1` gets it back, with the whole
/// seconds left, while more than a minute remains, and `{"ok": false}`
/// after. An empty token is refused and leaves the slot as it was.
pub proof fn law_store_then_poll(slot: SlotV, body: Seq<char>, t0: u128, t1: u128, b2: Seq<char>)
    requires
        t0 + body_expires_in(body) * 1000 <= u128::MAX,
        t1 + 60_000 <= u128::MAX,
    ensures
        body_token(body).len() > 0 ==> token_step_spec(slot, Endpoint::OAuthStore, body, t0) == (
            Some((body_token(body), (t0 + body_expires_in(body) * 1000) as u128)),
            Some(ReplyV::Json { value: JsonV::Obj(seq![("ok"@, JsonV::Bool(true))]), cors: crate::reply::Cors::Any }),
        ),
        body_token(body).len() == 0 ==> token_step_spec(slot, Endpoint::OAuthStore, body, t0) == (
            slot,
            Some(ReplyV::Json {
                value: JsonV::Obj(seq![("ok"@, JsonV::Bool(false)), ("msg"@, JsonV::Str("no token"@))]),
                cors: crate::reply::Cors::Any,
            }),
        ),
        ({
            let exp = t0 + body_expires_in(body) * 1000;
            let after = token_step_spec(slot, Endpoint::OAuthStore, body, t0).0;
            body_token(body).len() > 0 && exp > t1 + 60_000 ==> token_step_spec(after, Endpoint::OAuthToken, b2, t1) == (
                after,
                Some(ReplyV::Json {
                    value: JsonV::Obj(seq![
                        ("ok"@, JsonV::Bool(true)),
                        ("access_token"@, JsonV::Str(body_token(body))),
                        ("expires_in"@, JsonV::Num(((exp - t1) / 1000) as u64)),
                    ]),
                    cors: crate::reply::Cors::Portal,
                }),
            )
        }),
        ({
            let exp = t0 + body_expires_in(body) * 1000;
            let after = token_step_spec(slot, Endpoint::OAuthStore, body, t0).0;
            body_token(body).len() > 0 && exp <= t1 + 60_000 ==> token_step_spec(after, Endpoint::OAuthToken, b2, t1).1
                == Some(ReplyV::Json { value: JsonV::Obj(seq![("ok"@, JsonV::Bool(false))]), cors: crate::reply::Cors::Portal })
        }),
        token_step_spec(slot, Endpoint::OAuthStart, body, t0).0 is None,
{
}

proof fn lemma_route_0(verb: Verb)
    requires
        !(verb is Options),
    ensures
        endpoint_spec(verb, "/ping"@) == Endpoint::Ping,
{
    reveal_strlit("/ping");
}

proof fn lemma_route_1(verb: Verb)
    requires
        !(verb is Options),
    ensures
        endpoint_spec(verb, "/win/start-drag"@) == Endpoint::StartDrag,
{
    reveal_strlit("/win/start-drag");
    reveal_strlit("/ping");
    assert("/win/start-drag"@.len() != "/ping"@.len());
}

proof fn lemma_route_2(verb: Verb)
    requires
        !(verb is Options),
    ensures
        endpoint_spec(verb, "/win/minimize"@) == Endpoint::Minimize,
{
    reveal_strlit("/win/minimize");
    reveal_strlit("/ping");
    assert("/win/minimize"@.len() != "/ping"@.len());
    reveal_strlit("/win/start-drag");
    assert("/win/minimize"@.len() != "/win/start-drag"@.len());
}

proof fn lemma_route_3(verb: Verb)
    requires
        !(verb is Options),
    ensures
        endpoint_spec(verb, "/win/toggle-maximize"@) == Endpoint::ToggleMaximize,
{
    reveal_strlit("/win/toggle-maximize");
    reveal_strlit("/ping");
    assert("/win/toggle-maximize"@.len() != "/ping"@.len());
    reveal_strlit("/win/start-drag");
    assert("/win/toggle-maximize"@.len() != "/win/start-drag"@.len());
    reveal_strlit("/win/minimize");
    assert("/win/toggle-maximize"@.len() != "/win/minimize"@.len());
}

proof fn lemma_route_4(verb: Verb)
    requires
        !(verb is Options),
    ensures
        endpoint_spec(verb, "/win/is-maximized"@) == Endpoint::IsMaximized,
{
    reveal_strlit("/win/is-maximized");
    reveal_strlit("/ping");
    assert("/win/is-maximized"@.len() != "/ping"@.len());
    reveal_strlit("/win/start-drag");
    assert("/win/is-maximized"@.len() != "/win/start-drag"@.len());
    reveal_strlit("/win/minimize");
    assert("/win/is-maximized"@.len() != "/win/minimize"@.len());
    reveal_strlit("/win/toggle-maximize");
    assert("/win/is-maximized"@.len() != "/win/toggle-maximize"@.len());
}

proof fn lemma_route_5(verb: Verb)
    requires
        !(verb is Options),
    ensures
        endpoint_spec(verb, "/win/hide"@) == Endpoint::Hide,
{
    reveal_strlit("/win/hide");
    reveal_strlit("/ping");
    assert("/win/hide"@.len() != "/ping"@.len());
    reveal_strlit("/win/start-drag");
    assert("/win/hide"@.len() != "/win/start-drag"@.len());
    reveal_strlit("/win/minimize");
    assert("/win/hide"@.len() != "/win/minimize"@.len());
    reveal_strlit("/win/toggle-maximize");
    assert("/win/hide"@.len() != "/win/toggle-maximize"@.len());
    reveal_strlit("/win/is-maximized");
    assert("/win/hide"@.len() != "/win/is-maximized"@.len());
}

proof fn lemma_route_6(verb: Verb)
    requires
        !(verb is Options),
    ensures
        endpoint_spec(verb, "/win/badge"@) == Endpoint::Badge,
{
    reveal_strlit("/win/badge");
    reveal_strlit("/ping");
    assert("/win/badge"@.len() != "/ping"@.len());
    reveal_strlit("/win/start-drag");
    assert("/win/badge"@.len() != "/win/start-drag"@.len());
    reveal_strlit("/win/minimize");
    assert("/win/badge"@.len() != "/win/minimize"@.len());
    reveal_strlit("/win/toggle-maximize");
    assert("/win/badge"@.len() != "/win/toggle-maximize"@.len());
    reveal_strlit("/win/is-maximized");
    assert("/win/badge"@.len() != "/win/is-maximized"@.len());
    reveal_strlit("/win/hide");
    assert("/win/badge"@.len() != "/win/hide"@.len());
}

proof fn lemma_route_7(verb: Verb)
    requires
        !(verb is Options),
    ensures
        endpoint_spec(verb, "/win/open-external"@) == Endpoint::OpenExternal,
{
    reveal_strlit("/win/open-external");
    reveal_strlit("/ping");
    assert("/win/open-external"@.len() != "/ping"@.len());
    reveal_strlit("/win/start-drag");
    assert("/win/open-external"@.len() != "/win/start-drag"@.len());
    reveal_strlit("/win/minimize");
    assert("/win/open-external"@.len() != "/win/minimize"@.len());
    reveal_strlit("/win/toggle-maximize");
    assert("/win/open-external"@.len() != "/win/toggle-maximize"@.len());
    reveal_strlit("/win/is-maximized");
    assert("/win/open-external"@.len() != "/win/is-maximized"@.len());
    reveal_strlit("/win/hide");
    assert("/win/open-external"@.len() != "/win/hide"@.len());
    reveal_strlit("/win/badge");
    assert("/win/open-external"@.len() != "/win/badge"@.len());
}

proof fn lemma_route_8(verb: Verb)
    requires
        !(verb is Options),
    ensures
        endpoint_spec(verb, "/win/open-window"@) == Endpoint::OpenWindow,
{
    reveal_strlit("/win/open-window");
    reveal_strlit("/ping");
    assert("/win/open-window"@.len() != "/ping"@.len());
    reveal_strlit("/win/start-drag");
    assert("/win/open-window"@.len() != "/win/start-drag"@.len());
    reveal_strlit("/win/minimize");
    assert("/win/open-window"@.len() != "/win/minimize"@.len());
    reveal_strlit("/win/toggle-maximize");
    assert("/win/open-window"@.len() != "/win/toggle-maximize"@.len());
    reveal_strlit("/win/is-maximized");
    assert("/win/open-window"@.len() != "/win/is-maximized"@.len());
    reveal_strlit("/win/hide");
    assert("/win/open-window"@.len() != "/win/hide"@.len());
    reveal_strlit("/win/badge");
    assert("/win/open-window"@.len() != "/win/badge"@.len());
    reveal_strlit("/win/open-external");
    assert("/win/open-window"@.len() != "/win/open-external"@.len());
}

proof fn lemma_route_9(verb: Verb)
    requires
        !(verb is Options),
    ensures
        endpoint_spec(verb, "/win/update/check"@) == Endpoint::UpdateCheck,
{
    reveal_strlit("/win/update/check");
    reveal_strlit("/ping");
    assert("/win/update/check"@.len() != "/ping"@.len());
    reveal_strlit("/win/start-drag");
    assert("/win/update/check"@.len() != "/win/start-drag"@.len());
    reveal_strlit("/win/minimize");
    assert("/win/update/check"@.len() != "/win/minimize"@.len());
    reveal_strlit("/win/toggle-maximize");
    assert("/win/update/check"@.len() != "/win/toggle-maximize"@.len());
    reveal_strlit("/win/is-maximized");
    assert("/win/update/check"@[5] != "/win/is-maximized"@[5]);
    reveal_strlit("/win/hide");
    assert("/win/update/check"@.len() != "/win/hide"@.len());
    reveal_strlit("/win/badge");
    assert("/win/update/check"@.len() != "/win/badge"@.len());
    reveal_strlit("/win/open-external");
    assert("/win/update/check"@.len() != "/win/open-external"@.len());
    reveal_strlit("/win/open-window");
    assert("/win/update/check"@.len() != "/win/open-window"@.len());
}

proof fn lemma_route_10(verb: Verb)
    requires
        !(verb is Options),
    ensures
        endpoint_spec(verb, "/win/update/apply"@) == Endpoint::UpdateApply,
{
    reveal_strlit("/win/update/apply");
    reveal_strlit("/ping");
    assert("/win/update/apply"@.len() != "/ping"@.len());
    reveal_strlit("/win/start-drag");
    assert("/win/update/apply"@.len() != "/win/start-drag"@.len());
    reveal_strlit("/win/minimize");
    assert("/win/update/apply"@.len() != "/win/minimize"@.len());
    reveal_strlit("/win/toggle-maximize");
    assert("/win/update/apply"@.len() != "/win/toggle-maximize"@.len());
    reveal_strlit("/win/is-maximized");
    assert("/win/update/apply"@[5] != "/win/is-maximized"@[5]);
    reveal_strlit("/win/hide");
    assert("/win/update/apply"@.len() != "/win/hide"@.len());
    reveal_strlit("/win/badge");
    assert("/win/update/apply"@.len() != "/win/badge"@.len());
    reveal_strlit("/win/open-external");
    assert("/win/update/apply"@.len() != "/win/open-external"@.len());
    reveal_strlit("/win/open-window");
    assert("/win/update/apply"@.len() != "/win/open-window"@.len());
    reveal_strlit("/win/update/check");
    assert("/win/update/apply"@[12] != "/win/update/check"@[12]);
}

proof fn lemma_route_11(verb: Verb)
    requires
        !(verb is Options),
    ensures
        endpoint_spec(verb, "/oauth/start"@) == Endpoint::OAuthStart,
{
    reveal_strlit("/oauth/start");
    reveal_strlit("/ping");
    assert("/oauth/start"@.len() != "/ping"@.len());
    reveal_strlit("/win/start-drag");
    assert("/oauth/start"@.len() != "/win/start-drag"@.len());
    reveal_strlit("/win/minimize");
    assert("/oauth/start"@.len() != "/win/minimize"@.len());
    reveal_strlit("/win/toggle-maximize");
    assert("/oauth/start"@.len() != "/win/toggle-maximize"@.len());
    reveal_strlit("/win/is-maximized");
    assert("/oauth/start"@.len() != "/win/is-maximized"@.len());
    reveal_strlit("/win/hide");
    assert("/oauth/start"@.len() != "/win/hide"@.len());
    reveal_strlit("/win/badge");
    assert("/oauth/start"@.len() != "/win/badge"@.len());
    reveal_strlit("/win/open-external");
    assert("/oauth/start"@.len() != "/win/open-external"@.len());
    reveal_strlit("/win/open-window");
    assert("/oauth/start"@.len() != "/win/open-window"@.len());
    reveal_strlit("/win/update/check");
    assert("/oauth/start"@.len() != "/win/update/check"@.len());
    reveal_strlit("/win/update/apply");
    assert("/oauth/start"@.len() != "/win/update/apply"@.len());
}

proof fn lemma_route_12(verb: Verb)
    requires
        !(verb is Options),
    ensures
        endpoint_spec(verb, "/oauth2callback"@) == Endpoint::OAuthCallback,
{
    reveal_strlit("/oauth2callback");
    reveal_strlit("/ping");
    assert("/oauth2callback"@.len() != "/ping"@.len());
    reveal_strlit("/win/start-drag");
    assert("/oauth2callback"@[1] != "/win/start-drag"@[1]);
    reveal_strlit("/win/minimize");
    assert("/oauth2callback"@.len() != "/win/minimize"@.len());
    reveal_strlit("/win/toggle-maximize");
    assert("/oauth2callback"@.len() != "/win/toggle-maximize"@.len());
    reveal_strlit("/win/is-maximized");
    assert("/oauth2callback"@.len() != "/win/is-maximized"@.len());
    reveal_strlit("/win/hide");
    assert("/oauth2callback"@.len() != "/win/hide"@.len());
    reveal_strlit("/win/badge");
    assert("/oauth2callback"@.len() != "/win/badge"@.len());
    reveal_strlit("/win/open-external");
    assert("/oauth2callback"@.len() != "/win/open-external"@.len());
    reveal_strlit("/win/open-window");
    assert("/oauth2callback"@.len() != "/win/open-window"@.len());
    reveal_strlit("/win/update/check");
    assert("/oauth2callback"@.len() != "/win/update/check"@.len());
    reveal_strlit("/win/update/apply");
    assert("/oauth2callback"@.len() != "/win/update/apply"@.len());
    reveal_strlit("/oauth/start");
    assert("/oauth2callback"@.len() != "/oauth/start"@.len());
}

proof fn lemma_route_13(verb: Verb)
    requires
        !(verb is Options),
    ensures
        endpoint_spec(verb, "/oauth/store"@) == Endpoint::OAuthStore,
{
    reveal_strlit("/oauth/store");
    reveal_strlit("/ping");
    assert("/oauth/store"@.len() != "/ping"@.len());
    reveal_strlit("/win/start-drag");
    assert("/oauth/store"@.len() != "/win/start-drag"@.len());
    reveal_strlit("/win/minimize");
    assert("/oauth/store"@.len() != "/win/minimize"@.len());
    reveal_strlit("/win/toggle-maximize");
    assert("/oauth/store"@.len() != "/win/toggle-maximize"@.len());
    reveal_strlit("/win/is-maximized");
    assert("/oauth/store"@.len() != "/win/is-maximized"@.len());
    reveal_strlit("/win/hide");
    assert("/oauth/store"@.len() != "/win/hide"@.len());
    reveal_strlit("/win/badge");
    assert("/oauth/store"@.len() != "/win/badge"@.len());
    reveal_strlit("/win/open-external");
    assert("/oauth/store"@.len() != "/win/open-external"@.len());
    reveal_strlit("/win/open-window");
    assert("/oauth/store"@.len() != "/win/open-window"@.len());
    reveal_strlit("/win/update/check");
    assert("/oauth/store"@.len() != "/win/update/check"@.len());
    reveal_strlit("/win/update/apply");
    assert("/oauth/store"@.len() != "/win/update/apply"@.len());
    reveal_strlit("/oauth/start");
    assert("/oauth/store"@[9] != "/oauth/start"@[9]);
    reveal_strlit("/oauth2callback");
    assert("/oauth/store"@.len() != "/oauth2callback"@.len());
}

proof fn lemma_route_14(verb: Verb)
    requires
        !(verb is Options),
    ensures
        endpoint_spec(verb, "/oauth/token"@) == Endpoint::OAuthToken,
{
    reveal_strlit("/oauth/token");
    reveal_strlit("/ping");
    assert("/oauth/token"@.len() != "/ping"@.len());
    reveal_strlit("/win/start-drag");
    assert("/oauth/token"@.len() != "/win/start-drag"@.len());
    reveal_strlit("/win/minimize");
    assert("/oauth/token"@.len() != "/win/minimize"@.len());
    reveal_strlit("/win/toggle-maximize");
    assert("/oauth/token"@.len() != "/win/toggle-maximize"@.len());
    reveal_strlit("/win/is-maximized");
    assert("/oauth/token"@.len() != "/win/is-maximized"@.len());
    reveal_strlit("/win/hide");
    assert("/oauth/token"@.len() != "/win/hide"@.len());
    reveal_strlit("/win/badge");
    assert("/oauth/token"@.len() != "/win/badge"@.len());
    reveal_strlit("/win/open-external");
    assert("/oauth/token"@.len() != "/win/open-external"@.len());
    reveal_strlit("/win/open-window");
    assert("/oauth/token"@.len() != "/win/open-window"@.len());
    reveal_strlit("/win/update/check");
    assert("/oauth/token"@.len() != "/win/update/check"@.len());
    reveal_strlit("/win/update/apply");
    assert("/oauth/token"@.len() != "/win/update/apply"@.len());
    reveal_strlit("/oauth/start");
    assert("/oauth/token"@[7] != "/oauth/start"@[7]);
    reveal_strlit("/oauth2callback");
    assert("/oauth/token"@.len() != "/oauth2callback"@.len());
    reveal_strlit("/oauth/store");
    assert("/oauth/token"@[7] != "/oauth/store"@[7]);
}

proof fn lemma_route_15(verb: Verb)
    requires
        !(verb is Options),
    ensures
        endpoint_spec(verb, "/drives"@) == Endpoint::Drives,
{
    reveal_strlit("/drives");
    reveal_strlit("/ping");
    assert("/drives"@.len() != "/ping"@.len());
    reveal_strlit("/win/start-drag");
    assert("/drives"@.len() != "/win/start-drag"@.len());
    reveal_strlit("/win/minimize");
    assert("/drives"@.len() != "/win/minimize"@.len());
    reveal_strlit("/win/toggle-maximize");
    assert("/drives"@.len() != "/win/toggle-maximize"@.len());
    reveal_strlit("/win/is-maximized");
    assert("/drives"@.len() != "/win/is-maximized"@.len());
    reveal_strlit("/win/hide");
    assert("/drives"@.len() != "/win/hide"@.len());
    reveal_strlit("/win/badge");
    assert("/drives"@.len() != "/win/badge"@.len());
    reveal_strlit("/win/open-external");
    assert("/drives"@.len() != "/win/open-external"@.len());
    reveal_strlit("/win/open-window");
    assert("/drives"@.len() != "/win/open-window"@.len());
    reveal_strlit("/win/update/check");
    assert("/drives"@.len() != "/win/update/check"@.len());
    reveal_strlit("/win/update/apply");
    assert("/drives"@.len() != "/win/update/apply"@.len());
    reveal_strlit("/oauth/start");
    assert("/drives"@.len() != "/oauth/start"@.len());
    reveal_strlit("/oauth2callback");
    assert("/drives"@.len() != "/oauth2callback"@.len());
    reveal_strlit("/oauth/store");
    assert("/drives"@.len() != "/oauth/store"@.len());
    reveal_strlit("/oauth/token");
    assert("/drives"@.len() != "/oauth/token"@.len());
}

proof fn lemma_route_16(verb: Verb)
    requires
        !(verb is Options),
    ensures
        endpoint_spec(verb, "/ls"@) == Endpoint::List,
{
    reveal_strlit("/ls");
    reveal_strlit("/ping");
    assert("/ls"@.len() != "/ping"@.len());
    reveal_strlit("/win/start-drag");
    assert("/ls"@.len() != "/win/start-drag"@.len());
    reveal_strlit("/win/minimize");
    assert("/ls"@.len() != "/win/minimize"@.len());
    reveal_strlit("/win/toggle-maximize");
    assert("/ls"@.len() != "/win/toggle-maximize"@.len());
    reveal_strlit("/win/is-maximized");
    assert("/ls"@.len() != "/win/is-maximized"@.len());
    reveal_strlit("/win/hide");
    assert("/ls"@.len() != "/win/hide"@.len());
    reveal_strlit("/win/badge");
    assert("/ls"@.len() != "/win/badge"@.len());
    reveal_strlit("/win/open-external");
    assert("/ls"@.len() != "/win/open-external"@.len());
    reveal_strlit("/win/open-window");
    assert("/ls"@.len() != "/win/open-window"@.len());
    reveal_strlit("/win/update/check");
    assert("/ls"@.len() != "/win/update/check"@.len());
    reveal_strlit("/win/update/apply");
    assert("/ls"@.len() != "/win/update/apply"@.len());
    reveal_strlit("/oauth/start");
    assert("/ls"@.len() != "/oauth/start"@.len());
    reveal_strlit("/oauth2callback");
    assert("/ls"@.len() != "/oauth2callback"@.len());
    reveal_strlit("/oauth/store");
    assert("/ls"@.len() != "/oauth/store"@.len());
    reveal_strlit("/oauth/token");
    assert("/ls"@.len() != "/oauth/token"@.len());
    reveal_strlit("/drives");
    assert("/ls"@.len() != "/drives"@.len());
}

proof fn lemma_route_17(verb: Verb)
    requires
        !(verb is Options),
    ensures
        endpoint_spec(verb, "/open"@) == Endpoint::Open,
{
    reveal_strlit("/open");
    reveal_strlit("/ping");
    assert("/open"@[1] != "/ping"@[1]);
    reveal_strlit("/win/start-drag");
    assert("/open"@.len() != "/win/start-drag"@.len());
    reveal_strlit("/win/minimize");
    assert("/open"@.len() != "/win/minimize"@.len());
    reveal_strlit("/win/toggle-maximize");
    assert("/open"@.len() != "/win/toggle-maximize"@.len());
    reveal_strlit("/win/is-maximized");
    assert("/open"@.len() != "/win/is-maximized"@.len());
    reveal_strlit("/win/hide");
    assert("/open"@.len() != "/win/hide"@.len());
    reveal_strlit("/win/badge");
    assert("/open"@.len() != "/win/badge"@.len());
    reveal_strlit("/win/open-external");
    assert("/open"@.len() != "/win/open-external"@.len());
    reveal_strlit("/win/open-window");
    assert("/open"@.len() != "/win/open-window"@.len());
    reveal_strlit("/win/update/check");
    assert("/open"@.len() != "/win/update/check"@.len());
    reveal_strlit("/win/update/apply");
    assert("/open"@.len() != "/win/update/apply"@.len());
    reveal_strlit("/oauth/start");
    assert("/open"@.len() != "/oauth/start"@.len());
    reveal_strlit("/oauth2callback");
    assert("/open"@.len() != "/oauth2callback"@.len());
    reveal_strlit("/oauth/store");
    assert("/open"@.len() != "/oauth/store"@.len());
    reveal_strlit("/oauth/token");
    assert("/open"@.len() != "/oauth/token"@.len());
    reveal_strlit("/drives");
    assert("/open"@.len() != "/drives"@.len());
    reveal_strlit("/ls");
    assert("/open"@.len() != "/ls"@.len());
}

proof fn lemma_route_18(verb: Verb)
    requires
        !(verb is Options),
    ensures
        endpoint_spec(verb, "/reveal"@) == Endpoint::Reveal,
{
    reveal_strlit("/reveal");
    reveal_strlit("/ping");
    assert("/reveal"@.len() != "/ping"@.len());
    reveal_strlit("/win/start-drag");
    assert("/reveal"@.len() != "/win/start-drag"@.len());
    reveal_strlit("/win/minimize");
    assert("/reveal"@.len() != "/win/minimize"@.len());
    reveal_strlit("/win/toggle-maximize");
    assert("/reveal"@.len() != "/win/toggle-maximize"@.len());
    reveal_strlit("/win/is-maximized");
    assert("/reveal"@.len() != "/win/is-maximized"@.len());
    reveal_strlit("/win/hide");
    assert("/reveal"@.len() != "/win/hide"@.len());
    reveal_strlit("/win/badge");
    assert("/reveal"@.len() != "/win/badge"@.len());
    reveal_strlit("/win/open-external");
    assert("/reveal"@.len() != "/win/open-external"@.len());
    reveal_strlit("/win/open-window");
    assert("/reveal"@.len() != "/win/open-window"@.len());
    reveal_strlit("/win/update/check");
    assert("/reveal"@.len() != "/win/update/check"@.len());
    reveal_strlit("/win/update/apply");
    assert("/reveal"@.len() != "/win/update/apply"@.len());
    reveal_strlit("/oauth/start");
    assert("/reveal"@.len() != "/oauth/start"@.len());
    reveal_strlit("/oauth2callback");
    assert("/reveal"@.len() != "/oauth2callback"@.len());
    reveal_strlit("/oauth/store");
    assert("/reveal"@.len() != "/oauth/store"@.len());
    reveal_strlit("/oauth/token");
    assert("/reveal"@.len() != "/oauth/token"@.len());
    reveal_strlit("/drives");
    assert("/reveal"@[1] != "/drives"@[1]);
    reveal_strlit("/ls");
    assert("/reveal"@.len() != "/ls"@.len());
    reveal_strlit("/open");
    assert("/reveal"@.len() != "/open"@.len());
}

proof fn lemma_route_19(verb: Verb)
    requires
        !(verb is Options),
    ensures
        endpoint_spec(verb, "/read"@) == Endpoint::Read,
{
    reveal_strlit("/read");
    reveal_strlit("/ping");
    assert("/read"@[1] != "/ping"@[1]);
    reveal_strlit("/win/start-drag");
    assert("/read"@.len() != "/win/start-drag"@.len());
    reveal_strlit("/win/minimize");
    assert("/read"@.len() != "/win/minimize"@.len());
    reveal_strlit("/win/toggle-maximize");
    assert("/read"@.len() != "/win/toggle-maximize"@.len());
    reveal_strlit("/win/is-maximized");
    assert("/read"@.len() != "/win/is-maximized"@.len());
    reveal_strlit("/win/hide");
    assert("/read"@.len() != "/win/hide"@.len());
    reveal_strlit("/win/badge");
    assert("/read"@.len() != "/win/badge"@.len());
    reveal_strlit("/win/open-external");
    assert("/read"@.len() != "/win/open-external"@.len());
    reveal_strlit("/win/open-window");
    assert("/read"@.len() != "/win/open-window"@.len());
    reveal_strlit("/win/update/check");
    assert("/read"@.len() != "/win/update/check"@.len());
    reveal_strlit("/win/update/apply");
    assert("/read"@.len() != "/win/update/apply"@.len());
    reveal_strlit("/oauth/start");
    assert("/read"@.len() != "/oauth/start"@.len());
    reveal_strlit("/oauth2callback");
    assert("/read"@.len() != "/oauth2callback"@.len());
    reveal_strlit("/oauth/store");
    assert("/read"@.len() != "/oauth/store"@.len());
    reveal_strlit("/oauth/token");
    assert("/read"@.len() != "/oauth/token"@.len());
    reveal_strlit("/drives");
    assert("/read"@.len() != "/drives"@.len());
    reveal_strlit("/ls");
    assert("/read"@.len() != "/ls"@.len());
    reveal_strlit("/open");
    assert("/read"@[1] != "/open"@[1]);
    reveal_strlit("/reveal");
    assert("/read"@.len() != "/reveal"@.len());
}

proof fn lemma_route_20(verb: Verb)
    requires
        !(verb is Options),
    ensures
        endpoint_spec(verb, "/copy"@) == Endpoint::Copy,
{
    reveal_strlit("/copy");
    reveal_strlit("/ping");
    assert("/copy"@[1] != "/ping"@[1]);
    reveal_strlit("/win/start-drag");
    assert("/copy"@.len() != "/win/start-drag"@.len());
    reveal_strlit("/win/minimize");
    assert("/copy"@.len() != "/win/minimize"@.len());
    reveal_strlit("/win/toggle-maximize");
    assert("/copy"@.len() != "/win/toggle-maximize"@.len());
    reveal_strlit("/win/is-maximized");
    assert("/copy"@.len() != "/win/is-maximized"@.len());
    reveal_strlit("/win/hide");
    assert("/copy"@.len() != "/win/hide"@.len());
    reveal_strlit("/win/badge");
    assert("/copy"@.len() != "/win/badge"@.len());
    reveal_strlit("/win/open-external");
    assert("/copy"@.len() != "/win/open-external"@.len());
    reveal_strlit("/win/open-window");
    assert("/copy"@.len() != "/win/open-window"@.len());
    reveal_strlit("/win/update/check");
    assert("/copy"@.len() != "/win/update/check"@.len());
    reveal_strlit("/win/update/apply");
    assert("/copy"@.len() != "/win/update/apply"@.len());
    reveal_strlit("/oauth/start");
    assert("/copy"@.len() != "/oauth/start"@.len());
    reveal_strlit("/oauth2callback");
    assert("/copy"@.len() != "/oauth2callback"@.len());
    reveal_strlit("/oauth/store");
    assert("/copy"@.len() != "/oauth/store"@.len());
    reveal_strlit("/oauth/token");
    assert("/copy"@.len() != "/oauth/token"@.len());
    reveal_strlit("/drives");
    assert("/copy"@.len() != "/drives"@.len());
    reveal_strlit("/ls");
    assert("/copy"@.len() != "/ls"@.len());
    reveal_strlit("/open");
    assert("/copy"@[1] != "/open"@[1]);
    reveal_strlit("/reveal");
    assert("/copy"@.len() != "/reveal"@.len());
    reveal_strlit("/read");
    assert("/copy"@[1] != "/read"@[1]);
}

proof fn lemma_route_21(verb: Verb)
    requires
        !(verb is Options),
    ensures
        endpoint_spec(verb, "/move"@) == Endpoint::Move,
{
    reveal_strlit("/move");
    reveal_strlit("/ping");
    assert("/move"@[1] != "/ping"@[1]);
    reveal_strlit("/win/start-drag");
    assert("/move"@.len() != "/win/start-drag"@.len());
    reveal_strlit("/win/minimize");
    assert("/move"@.len() != "/win/minimize"@.len());
    reveal_strlit("/win/toggle-maximize");
    assert("/move"@.len() != "/win/toggle-maximize"@.len());
    reveal_strlit("/win/is-maximized");
    assert("/move"@.len() != "/win/is-maximized"@.len());
    reveal_strlit("/win/hide");
    assert("/move"@.len() != "/win/hide"@.len());
    reveal_strlit("/win/badge");
    assert("/move"@.len() != "/win/badge"@.len());
    reveal_strlit("/win/open-external");
    assert("/move"@.len() != "/win/open-external"@.len());
    reveal_strlit("/win/open-window");
    assert("/move"@.len() != "/win/open-window"@.len());
    reveal_strlit("/win/update/check");
    assert("/move"@.len() != "/win/update/check"@.len());
    reveal_strlit("/win/update/apply");
    assert("/move"@.len() != "/win/update/apply"@.len());
    reveal_strlit("/oauth/start");
    assert("/move"@.len() != "/oauth/start"@.len());
    reveal_strlit("/oauth2callback");
    assert("/move"@.len() != "/oauth2callback"@.len());
    reveal_strlit("/oauth/store");
    assert("/move"@.len() != "/oauth/store"@.len());
    reveal_strlit("/oauth/token");
    assert("/move"@.len() != "/oauth/token"@.len());
    reveal_strlit("/drives");
    assert("/move"@.len() != "/drives"@.len());
    reveal_strlit("/ls");
    assert("/move"@.len() != "/ls"@.len());
    reveal_strlit("/open");
    assert("/move"@[1] != "/open"@[1]);
    reveal_strlit("/reveal");
    assert("/move"@.len() != "/reveal"@.len());
    reveal_strlit("/read");
    assert("/move"@[1] != "/read"@[1]);
    reveal_strlit("/copy");
    assert("/move"@[1] != "/copy"@[1]);
}

proof fn lemma_route_22(verb: Verb)
    requires
        !(verb is Options),
    ensures
        endpoint_spec(verb, "/save"@) == Endpoint::Save,
{
    reveal_strlit("/save");
    reveal_strlit("/ping");
    assert("/save"@[1] != "/ping"@[1]);
    reveal_strlit("/win/start-drag");
    assert("/save"@.len() != "/win/start-drag"@.len());
    reveal_strlit("/win/minimize");
    assert("/save"@.len() != "/win/minimize"@.len());
    reveal_strlit("/win/toggle-maximize");
    assert("/save"@.len() != "/win/toggle-maximize"@.len());
    reveal_strlit("/win/is-maximized");
    assert("/save"@.len() != "/win/is-maximized"@.len());
    reveal_strlit("/win/hide");
    assert("/save"@.len() != "/win/hide"@.len());
    reveal_strlit("/win/badge");
    assert("/save"@.len() != "/win/badge"@.len());
    reveal_strlit("/win/open-external");
    assert("/save"@.len() != "/win/open-external"@.len());
    reveal_strlit("/win/open-window");
    assert("/save"@.len() != "/win/open-window"@.len());
    reveal_strlit("/win/update/check");
    assert("/save"@.len() != "/win/update/check"@.len());
    reveal_strlit("/win/update/apply");
    assert("/save"@.len() != "/win/update/apply"@.len());
    reveal_strlit("/oauth/start");
    assert("/save"@.len() != "/oauth/start"@.len());
    reveal_strlit("/oauth2callback");
    assert("/save"@.len() != "/oauth2callback"@.len());
    reveal_strlit("/oauth/store");
    assert("/save"@.len() != "/oauth/store"@.len());
    reveal_strlit("/oauth/token");
    assert("/save"@.len() != "/oauth/token"@.len());
    reveal_strlit("/drives");
    assert("/save"@.len() != "/drives"@.len());
    reveal_strlit("/ls");
    assert("/save"@.len() != "/ls"@.len());
    reveal_strlit("/open");
    assert("/save"@[1] != "/open"@[1]);
    reveal_strlit("/reveal");
    assert("/save"@.len() != "/reveal"@.len());
    reveal_strlit("/read");
    assert("/save"@[1] != "/read"@[1]);
    reveal_strlit("/copy");
    assert("/save"@[1] != "/copy"@[1]);
    reveal_strlit("/move");
    assert("/save"@[1] != "/move"@[1]);
}

/// The routing table: every method but `OPTIONS` sends each of the
/// bridge's paths to that path's own endpoint, and `OPTIONS` is a preflight
/// whatever the path.
pub proof fn law_routing_table(verb: Verb, path: Seq<char>)
    requires
        !(verb is Options),
    ensures
        endpoint_spec(verb, "/ping"@) == Endpoint::Ping,
        endpoint_spec(verb, "/win/start-drag"@) == Endpoint::StartDrag,
        endpoint_spec(verb, "/win/minimize"@) == Endpoint::Minimize,
        endpoint_spec(verb, "/win/toggle-maximize"@) == Endpoint::ToggleMaximize,
        endpoint_spec(verb, "/win/is-maximized"@) == Endpoint::IsMaximized,
        endpoint_spec(verb, "/win/hide"@) == Endpoint::Hide,
        endpoint_spec(verb, "/win/badge"@) == Endpoint::Badge,
        endpoint_spec(verb, "/win/open-external"@) == Endpoint::OpenExternal,
        endpoint_spec(verb, "/win/open-window"@) == Endpoint::OpenWindow,
        endpoint_spec(verb, "/win/update/check"@) == Endpoint::UpdateCheck,
        endpoint_spec(verb, "/win/update/apply"@) == Endpoint::UpdateApply,
        endpoint_spec(verb, "/oauth/start"@) == Endpoint::OAuthStart,
        endpoint_spec(verb, "/oauth2callback"@) == Endpoint::OAuthCallback,
        endpoint_spec(verb, "/oauth/store"@) == Endpoint::OAuthStore,
        endpoint_spec(verb, "/oauth/token"@) == Endpoint::OAuthToken,
        endpoint_spec(verb, "/drives"@) == Endpoint::Drives,
        endpoint_spec(verb, "/ls"@) == Endpoint::List,
        endpoint_spec(verb, "/open"@) == Endpoint::Open,
        endpoint_spec(verb, "/reveal"@) == Endpoint::Reveal,
        endpoint_spec(verb, "/read"@) == Endpoint::Read,
        endpoint_spec(verb, "/copy"@) == Endpoint::Copy,
        endpoint_spec(verb, "/move"@) == Endpoint::Move,
        endpoint_spec(verb, "/save"@) == Endpoint::Save,
        endpoint_spec(Verb::Options, path) == Endpoint::Preflight,
{
    lemma_route_0(verb);
    lemma_route_1(verb);
    lemma_route_2(verb);
    lemma_route_3(verb);
    lemma_route_4(verb);
    lemma_route_5(verb);
    lemma_route_6(verb);
    lemma_route_7(verb);
    lemma_route_8(verb);
    lemma_route_9(verb);
    lemma_route_10(verb);
    lemma_route_11(verb);
    lemma_route_12(verb);
    lemma_route_13(verb);
    lemma_route_14(verb);
    lemma_route_15(verb);
    lemma_route_16(verb);
    lemma_route_17(verb);
    lemma_route_18(verb);
    lemma_route_19(verb);
    lemma_route_20(verb);
    lemma_route_21(verb);
    lemma_route_22(verb);
}

/// The body is read as JSON for storing a token, copying and moving,
/// whatever the method, and for posted links and window routes; for no
/// other request.
pub proof fn law_json_body_table(verb: Verb, e: Endpoint)
    ensures
        reads_json_body_spec(Endpoint::OAuthStore, verb),
        reads_json_body_spec(Endpoint::Copy, verb),
        reads_json_body_spec(Endpoint::Move, verb),
        reads_json_body_spec(Endpoint::OpenExternal, Verb::Post),
        reads_json_body_spec(Endpoint::OpenWindow, Verb::Post),
        !(verb is Post) ==> !reads_json_body_spec(Endpoint::OpenExternal, verb)
            && !reads_json_body_spec(Endpoint::OpenWindow, verb),
        !(e is OAuthStore || e is Copy || e is Move || e is OpenExternal || e is OpenWindow)
            ==> !reads_json_body_spec(e, verb),
{
}

} // verus!
