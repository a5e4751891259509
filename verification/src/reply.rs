//! Replies of the bridge: what they carry and the headers they are sent with.

use vstd::prelude::*;
use crate::json::{Json, JsonV};
use crate::text::owned;

verus! {

/// The portal that the desktop shell loads.
pub const PORTAL_BASE: &'static str = "https://huali-structure-app.qiaoyuhua2002.workers.dev";

/// Which origins may read a JSON reply.
#[derive(Debug, PartialEq, Eq)]
pub enum Cors {
    /// Any origin.
    Any,
    /// The portal alone.
    Portal,
}

/// A reply of the bridge.
#[derive(Debug, PartialEq, Eq)]
pub enum Reply {
    /// A JSON document, readable by the given origins.
    Json { value: Json, cors: Cors },
    /// An HTML page for the browser that the OAuth redirect lands in.
    Html(String),
    /// The bytes of a local file, sent with its media type.
    File { mime: String },
}

/// What a reply denotes.
pub enum ReplyV {
    Json { value: JsonV, cors: Cors },
    Html(Seq<char>),
    File { mime: Seq<char> },
}

impl View for Reply {
    type V = ReplyV;

    open spec fn view(&self) -> ReplyV {
        match self {
            Reply::Json { value, cors } => ReplyV::Json {
                value: value@,
                cors: match cors {
                    Cors::Any => Cors::Any,
                    Cors::Portal => Cors::Portal,
                },
            },
            Reply::Html(s) => ReplyV::Html(s@),
            Reply::File { mime } => ReplyV::File { mime: mime@ },
        }
    }
}

/// A JSON reply that any origin may read.
pub open spec fn json_any(v: JsonV) -> ReplyV {
    ReplyV::Json { value: v, cors: Cors::Any }
}

/// A JSON reply that only the portal may read.
pub open spec fn json_portal(v: JsonV) -> ReplyV {
    ReplyV::Json { value: v, cors: Cors::Portal }
}

/// A JSON reply that any origin may read.
pub fn reply_any(value: Json) -> (r: Reply)
    ensures
        r@ == json_any(value@),
{
    Reply::Json { value, cors: Cors::Any }
}

/// A JSON reply that only the portal may read.
pub fn reply_portal(value: Json) -> (r: Reply)
    ensures
        r@ == json_portal(value@),
{
    Reply::Json { value, cors: Cors::Portal }
}

/// The headers a reply is sent with, in order.
pub open spec fn headers_spec(r: ReplyV) -> Seq<(Seq<char>, Seq<char>)> {
    match r {
        ReplyV::Json { cors, .. } => seq![
            ("Content-Type"@, "application/json; charset=utf-8"@),
            ("Access-Control-Allow-Origin"@, match cors {
                Cors::Any => "*"@,
                Cors::Portal => PORTAL_BASE@,
            }),
            ("Access-Control-Allow-Methods"@, "GET, POST, OPTIONS"@),
            ("Access-Control-Allow-Headers"@, "Content-Type"@),
        ],
        ReplyV::Html(_) => seq![("Content-Type"@, "text/html; charset=utf-8"@)],
        ReplyV::File { mime } => seq![("Content-Type"@, mime), ("Access-Control-Allow-Origin"@, "*"@)],
    }
}

/// The view of a header list.
pub open spec fn pairs_view(v: Seq<(String, String)>) -> Seq<(Seq<char>, Seq<char>)> {
    v.map_values(|p: (String, String)| (p.0@, p.1@))
}

fn header(k: &str, v: &str) -> (r: (String, String))
    ensures
        r.0@ == k@,
        r.1@ == v@,
{
    (owned(k), owned(v))
}

/// The headers a reply is sent with, in order: JSON replies carry their
/// content type and CORS headers (the allowed origin being `*` or the
/// portal), HTML pages their content type, files their media type and `*`.
pub fn reply_headers(r: &Reply) -> (h: Vec<(String, String)>)
    ensures
        pairs_view(h@) == headers_spec(r@),
{
    let mut h = Vec::new();
    match r {
        Reply::Json { cors, .. } => {
            h.push(header("Content-Type", "application/json; charset=utf-8"));
            let origin = match cors {
                Cors::Any => "*",
                Cors::Portal => PORTAL_BASE,
            };
            h.push(header("Access-Control-Allow-Origin", origin));
            h.push(header("Access-Control-Allow-Methods", "GET, POST, OPTIONS"));
            h.push(header("Access-Control-Allow-Headers", "Content-Type"));
        },
        Reply::Html(_) => {
            h.push(header("Content-Type", "text/html; charset=utf-8"));
        },
        Reply::File { mime } => {
            h.push(header("Content-Type", mime.as_str()));
            h.push(header("Access-Control-Allow-Origin", "*"));
        },
    }
    assert(pairs_view(h@) =~= headers_spec(r@));
    h
}

} // verus!
