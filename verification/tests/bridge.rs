use huali_desktop::bridge::{
    endpoint_of, open_external_reply, ping_reply, plan_request, read_reply, reads_json_body, save_reply,
    toggle_maximize, transfer_reply, update_apply_step, update_check_reply, ApplyStep, Endpoint, Plan,
    UpdateCheck, Verb, WindowOp,
};
use huali_desktop::json::Json;
use huali_desktop::query::parse_query;
use huali_desktop::reply::{reply_headers, Cors, Reply};

fn render(j: &Json) -> String {
    match j {
        Json::Null => "null".to_string(),
        Json::Bool(b) => b.to_string(),
        Json::Num(n) => n.to_string(),
        Json::Str(s) => format!("{:?}", s),
        Json::Arr(v) => format!("[{}]", v.iter().map(render).collect::<Vec<_>>().join(",")),
        Json::Obj(v) => format!(
            "{{{}}}",
            v.iter().map(|(k, x)| format!("{:?}:{}", k, render(x))).collect::<Vec<_>>().join(",")
        ),
    }
}

fn body_of(r: &Reply) -> String {
    match r {
        Reply::Json { value, cors } => {
            assert!(matches!(cors, Cors::Any));
            render(value)
        }
        _ => panic!("not a JSON reply"),
    }
}

fn plan(verb: Verb, path: &str, query: &str, body: &str) -> Plan {
    let e = endpoint_of(&verb, path);
    plan_request(&e, &verb, &parse_query(query), body)
}

#[test]
fn routes_paths() {
    assert_eq!(endpoint_of(&Verb::Get, "/ping"), Endpoint::Ping);
    assert_eq!(endpoint_of(&Verb::Get, "/win/toggle-maximize"), Endpoint::ToggleMaximize);
    assert_eq!(endpoint_of(&Verb::Post, "/oauth/store"), Endpoint::OAuthStore);
    assert_eq!(endpoint_of(&Verb::Get, "/move"), Endpoint::Move);
    assert_eq!(endpoint_of(&Verb::Get, "/nope"), Endpoint::Unknown);
    assert_eq!(endpoint_of(&Verb::Options, "/ping"), Endpoint::Preflight);
    assert_eq!(endpoint_of(&Verb::Options, "/anything"), Endpoint::Preflight);
}

#[test]
fn json_body_only_where_needed() {
    assert!(reads_json_body(&Endpoint::Copy, &Verb::Get));
    assert!(reads_json_body(&Endpoint::OAuthStore, &Verb::Post));
    assert!(reads_json_body(&Endpoint::OpenExternal, &Verb::Post));
    assert!(!reads_json_body(&Endpoint::OpenExternal, &Verb::Get));
    assert!(!reads_json_body(&Endpoint::Save, &Verb::Post));
}

#[test]
fn preflight_and_unknown_answer_at_once() {
    match plan(Verb::Options, "/x", "", "") {
        Plan::Answer(r) => assert_eq!(body_of(&r), "{\"ok\":true}"),
        p => panic!("{:?}", p),
    }
    match plan(Verb::Get, "/x", "", "") {
        Plan::Answer(r) => assert_eq!(body_of(&r), "{\"ok\":false,\"msg\":\"unknown\"}"),
        p => panic!("{:?}", p),
    }
}

#[test]
fn drag_defaults_to_main() {
    assert_eq!(plan(Verb::Get, "/win/start-drag", "", ""), Plan::StartDrag { window: "main".to_string() });
    assert_eq!(
        plan(Verb::Get, "/win/start-drag", "win=app_pm2", ""),
        Plan::StartDrag { window: "app_pm2".to_string() }
    );
}

#[test]
fn badge_flags() {
    assert_eq!(plan(Verb::Get, "/win/badge", "on=1", ""), Plan::Badge { count: Some(1) });
    assert_eq!(plan(Verb::Get, "/win/badge", "on=true", ""), Plan::Badge { count: Some(1) });
    assert_eq!(plan(Verb::Get, "/win/badge", "on=yes", ""), Plan::Badge { count: None });
    assert_eq!(plan(Verb::Get, "/win/badge", "", ""), Plan::Badge { count: None });
}

#[test]
fn only_web_links_are_opened() {
    assert_eq!(
        plan(Verb::Get, "/win/open-external", "url=https%3A%2F%2Fexample.com", ""),
        Plan::OpenExternal { url: Some("https://example.com".to_string()) }
    );
    assert_eq!(
        plan(Verb::Post, "/win/open-external", "url=http%3A%2F%2Fa", "{\"url\":\"http://b\"}"),
        Plan::OpenExternal { url: Some("http://b".to_string()) }
    );
    assert_eq!(
        plan(Verb::Get, "/win/open-external", "url=file%3A%2F%2F%2Fc", ""),
        Plan::OpenExternal { url: None }
    );
    assert_eq!(plan(Verb::Post, "/win/open-external", "", "{}"), Plan::OpenExternal { url: None });
    assert_eq!(body_of(&open_external_reply(None)), "{\"ok\":false,\"msg\":\"need http(s) url\"}");
    assert_eq!(body_of(&open_external_reply(Some(true))), "{\"ok\":true}");
}

#[test]
fn window_route_defaults_to_root() {
    assert_eq!(plan(Verb::Get, "/win/open-window", "", ""), Plan::OpenWindow { route: "/".to_string() });
    assert_eq!(
        plan(Verb::Post, "/win/open-window", "", "{\"route\":\"/pm2\"}"),
        Plan::OpenWindow { route: "/pm2".to_string() }
    );
    assert_eq!(
        plan(Verb::Get, "/win/open-window", "route=%2Fcalendar", ""),
        Plan::OpenWindow { route: "/calendar".to_string() }
    );
}

#[test]
fn list_plans() {
    assert_eq!(plan(Verb::Get, "/ls", "", ""), Plan::Drives);
    assert_eq!(plan(Verb::Get, "/ls", "path=", ""), Plan::Drives);
    assert_eq!(
        plan(Verb::Get, "/ls", "path=D%3A%5Cx&recursive=true", ""),
        Plan::ListDir { path: "D:\\x".to_string(), recursive: true }
    );
    assert_eq!(
        plan(Verb::Get, "/ls", "path=%2Ftmp&recursive=1", ""),
        Plan::ListDir { path: "/tmp".to_string(), recursive: false }
    );
}

#[test]
fn open_reveal_read_save() {
    assert_eq!(plan(Verb::Get, "/open", "path=a", ""), Plan::Open { path: Some("a".to_string()), reveal: false });
    assert_eq!(plan(Verb::Get, "/reveal", "", ""), Plan::Open { path: None, reveal: true });
    assert_eq!(plan(Verb::Get, "/read", "path=x.pdf", ""), Plan::Read { path: Some("x.pdf".to_string()) });
    assert_eq!(plan(Verb::Post, "/save", "path=", ""), Plan::Save { path: None });
    assert_eq!(plan(Verb::Post, "/save", "path=o.txt", ""), Plan::Save { path: Some("o.txt".to_string()) });
}

#[test]
fn transfers_need_both_paths() {
    assert_eq!(
        plan(Verb::Post, "/copy", "", "{\"src\":\"a\",\"dst\":\"b\"}"),
        Plan::Transfer { paths: Some(("a".to_string(), "b".to_string())), copy: true }
    );
    assert_eq!(plan(Verb::Post, "/move", "", "{\"src\":\"a\",\"dst\":\"\"}"), Plan::Transfer { paths: None, copy: false });
    assert_eq!(plan(Verb::Post, "/move", "", "{\"src\":\"a\"}"), Plan::Transfer { paths: None, copy: false });
    assert_eq!(body_of(&transfer_reply(Ok("b/a".to_string()))), "{\"ok\":true,\"target\":\"b/a\"}");
    assert_eq!(body_of(&transfer_reply(Err("denied".to_string()))), "{\"ok\":false,\"msg\":\"denied\"}");
}

#[test]
fn oauth_plans() {
    match plan(Verb::Post, "/oauth/start", "", "") {
        Plan::OAuthStart { auth_url } => assert!(auth_url.starts_with("https://accounts.google.com/")),
        p => panic!("{:?}", p),
    }
    match plan(Verb::Get, "/oauth2callback", "", "") {
        Plan::Answer(Reply::Html(_)) => {}
        p => panic!("{:?}", p),
    }
    assert_eq!(plan(Verb::Get, "/oauth/token", "", ""), Plan::OAuthToken);
}

#[test]
fn ping() {
    assert_eq!(
        body_of(&ping_reply("0.1.0")),
        "{\"ok\":true,\"bridge\":\"huali-portal-embedded\",\"version\":\"0.1.0\",\"caps\":[\"file\",\"win\",\"badge\",\"child\",\"update\",\"oauth\"]}"
    );
}

#[test]
fn toggle() {
    let (op, r) = toggle_maximize(true);
    assert_eq!(op, WindowOp::Unmaximize);
    assert_eq!(body_of(&r), "{\"ok\":true,\"maximized\":false}");
    let (op, r) = toggle_maximize(false);
    assert_eq!(op, WindowOp::Maximize);
    assert_eq!(body_of(&r), "{\"ok\":true,\"maximized\":true}");
}

#[test]
fn read_replies() {
    match read_reply("a/b.PNG", Ok(())) {
        Reply::File { mime } => assert_eq!(mime, "image/png"),
        r => panic!("{:?}", r),
    }
    assert_eq!(body_of(&read_reply("x", Err("gone".to_string()))), "{\"ok\":false,\"msg\":\"gone\"}");
    let h = reply_headers(&read_reply("a.pdf", Ok(())));
    assert_eq!(
        h,
        vec![
            ("Content-Type".to_string(), "application/pdf".to_string()),
            ("Access-Control-Allow-Origin".to_string(), "*".to_string())
        ]
    );
}

#[test]
fn save_replies() {
    assert_eq!(body_of(&save_reply("o.txt", Ok(12))), "{\"ok\":true,\"path\":\"o.txt\",\"bytes\":12}");
    assert_eq!(body_of(&save_reply("o.txt", Err("ro".to_string()))), "{\"ok\":false,\"msg\":\"ro\"}");
}

#[test]
fn update_replies() {
    assert_eq!(
        body_of(&update_check_reply(UpdateCheck::Available { version: "1.2.0".to_string(), notes: None })),
        "{\"ok\":true,\"available\":true,\"version\":\"1.2.0\",\"notes\":null}"
    );
    assert_eq!(
        body_of(&update_check_reply(UpdateCheck::Available {
            version: "1.2.0".to_string(),
            notes: Some("fixes".to_string())
        })),
        "{\"ok\":true,\"available\":true,\"version\":\"1.2.0\",\"notes\":\"fixes\"}"
    );
    assert_eq!(body_of(&update_check_reply(UpdateCheck::Current)), "{\"ok\":true,\"available\":false}");
    assert_eq!(
        body_of(&update_check_reply(UpdateCheck::Failed("offline".to_string()))),
        "{\"ok\":false,\"available\":false,\"msg\":\"offline\"}"
    );
    assert_eq!(update_apply_step(Ok(true)), ApplyStep::Restart);
    match update_apply_step(Ok(false)) {
        ApplyStep::Answer(r) => assert_eq!(body_of(&r), "{\"ok\":true,\"applied\":false,\"msg\":\"已是最新版\"}"),
        s => panic!("{:?}", s),
    }
    match update_apply_step(Err("bad sig".to_string())) {
        ApplyStep::Answer(r) => assert_eq!(body_of(&r), "{\"ok\":false,\"msg\":\"bad sig\"}"),
        s => panic!("{:?}", s),
    }
}

#[test]
fn json_reply_headers() {
    let h = reply_headers(&open_external_reply(Some(true)));
    assert_eq!(
        h,
        vec![
            ("Content-Type".to_string(), "application/json; charset=utf-8".to_string()),
            ("Access-Control-Allow-Origin".to_string(), "*".to_string()),
            ("Access-Control-Allow-Methods".to_string(), "GET, POST, OPTIONS".to_string()),
            ("Access-Control-Allow-Headers".to_string(), "Content-Type".to_string())
        ]
    );
}
