//! The JSON values that the bridge answers with, as plain data. The program
//! around the library renders them with `serde_json`.

use vstd::prelude::*;

verus! {

/// A JSON value (numbers are the unsigned integers the replies use).
#[derive(Debug, PartialEq, Eq)]
pub enum Json {
    Null,
    Bool(bool),
    Num(u64),
    Str(String),
    Arr(Vec<Json>),
    Obj(Vec<(String, Json)>),
}

/// The mathematical JSON value that a `Json` denotes.
#[verifier::ext_equal]
pub enum JsonV {
    Null,
    Bool(bool),
    Num(u64),
    Str(Seq<char>),
    Arr(Seq<JsonV>),
    Obj(Seq<(Seq<char>, JsonV)>),
}

impl Json {
    /// The value this denotes.
    pub open spec fn model(self) -> JsonV
        decreases self,
    {
        match self {
            Json::Null => JsonV::Null,
            Json::Bool(b) => JsonV::Bool(b),
            Json::Num(n) => JsonV::Num(n),
            Json::Str(s) => JsonV::Str(s@),
            Json::Arr(v) => JsonV::Arr(models(v@)),
            Json::Obj(v) => JsonV::Obj(field_models(v@)),
        }
    }
}

/// The values a sequence of `Json` denotes.
pub open spec fn models(s: Seq<Json>) -> Seq<JsonV>
    decreases s,
{
    if s.len() == 0 {
        Seq::empty()
    } else {
        seq![s[0].model()] + models(s.subrange(1, s.len() as int))
    }
}

/// The members a sequence of `(String, Json)` denotes.
pub open spec fn field_models(s: Seq<(String, Json)>) -> Seq<(Seq<char>, JsonV)>
    decreases s,
{
    if s.len() == 0 {
        Seq::empty()
    } else {
        seq![(s[0].0@, s[0].1.model())] + field_models(s.subrange(1, s.len() as int))
    }
}

impl View for Json {
    type V = JsonV;

    open spec fn view(&self) -> JsonV {
        self.model()
    }
}

/// `models` maps each element.
pub proof fn lemma_models(s: Seq<Json>)
    ensures
        models(s).len() == s.len(),
        forall|i: int| 0 <= i < s.len() ==> #[trigger] models(s)[i] == s[i].model(),
    decreases s.len(),
{
    if s.len() > 0 {
        let rest = s.subrange(1, s.len() as int);
        lemma_models(rest);
        assert forall|i: int| 0 <= i < s.len() implies #[trigger] models(s)[i] == s[i].model() by {
            if i > 0 {
                assert(models(s)[i] == models(rest)[i - 1]);
                assert(rest[i - 1] == s[i]);
            }
        }
    }
}

/// `field_models` maps each member.
pub proof fn lemma_field_models(s: Seq<(String, Json)>)
    ensures
        field_models(s).len() == s.len(),
        forall|i: int| 0 <= i < s.len() ==> #[trigger] field_models(s)[i] == (s[i].0@, s[i].1.model()),
    decreases s.len(),
{
    if s.len() > 0 {
        let rest = s.subrange(1, s.len() as int);
        lemma_field_models(rest);
        assert forall|i: int| 0 <= i < s.len() implies #[trigger] field_models(s)[i] == (s[i].0@, s[i].1.model()) by {
            if i > 0 {
                assert(field_models(s)[i] == field_models(rest)[i - 1]);
                assert(rest[i - 1] == s[i]);
            }
        }
    }
}

/// A member `key: value`.
pub fn member(key: &str, value: Json) -> (r: (String, Json))
    ensures
        r.0@ == key@,
        r.1 == value,
{
    (key.to_owned(), value)
}

/// A string value.
pub fn jstr(s: &str) -> (r: Json)
    ensures
        r@ == JsonV::Str(s@),
{
    Json::Str(s.to_owned())
}

/// An object of the given members, in order.
pub fn object(members: Vec<(String, Json)>) -> (r: Json)
    ensures
        r@ == JsonV::Obj(field_models(members@)),
{
    Json::Obj(members)
}

/// An array of the given values, in order.
pub fn array(items: Vec<Json>) -> (r: Json)
    ensures
        r@ == JsonV::Arr(models(items@)),
{
    Json::Arr(items)
}

/// `{"ok": b}`.
pub open spec fn ok_v(b: bool) -> JsonV {
    JsonV::Obj(seq![("ok"@, JsonV::Bool(b))])
}

/// `{"ok": false, "msg": m}`.
pub open spec fn fail_v(m: Seq<char>) -> JsonV {
    JsonV::Obj(seq![("ok"@, JsonV::Bool(false)), ("msg"@, JsonV::Str(m))])
}

/// `{"ok": b}`.
pub fn ok_json(b: bool) -> (r: Json)
    ensures
        r@ == ok_v(b),
{
    let mut v = Vec::new();
    v.push(member("ok", Json::Bool(b)));
    proof {
        lemma_field_models(v@);
        assert(field_models(v@) =~= seq![("ok"@, JsonV::Bool(b))]);
    }
    let r = object(v);
    r
}

/// `{"ok": false, "msg": m}`.
pub fn fail_json(m: &str) -> (r: Json)
    ensures
        r@ == fail_v(m@),
{
    let mut v = Vec::new();
    v.push(member("ok", Json::Bool(false)));
    v.push(member("msg", jstr(m)));
    proof {
        lemma_field_models(v@);
        assert(field_models(v@) =~= seq![("ok"@, JsonV::Bool(false)), ("msg"@, JsonV::Str(m@))]);
    }
    let r = object(v);
    r
}

} // verus!
