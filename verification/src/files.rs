//! The JSON that describes local files, directories and drives.

use vstd::prelude::*;
use crate::json::{Json, JsonV, array, field_models, jstr, lemma_field_models, lemma_models, member, models, object};
use crate::text::push_char;

verus! {

/// The decimal digit for `d < 10`.
pub open spec fn digit_char(d: nat) -> char {
    (48 + d) as char
}

/// `n` in decimal, without leading zeros.
pub open spec fn decimal_spec(n: nat) -> Seq<char>
    decreases n,
{
    if n < 10 {
        seq![digit_char(n)]
    } else {
        decimal_spec(n / 10).push(digit_char(n % 10))
    }
}

/// `n` in decimal.
pub fn decimal(n: u128) -> (r: String)
    ensures
        r@ == decimal_spec(n as nat),
    decreases n,
{
    let d = (n % 10) as u8;
    let c = (48u8 + d) as char;
    if n < 10 {
        let mut r = String::new();
        push_char(&mut r, c);
        assert(r@ =~= seq![c]);
        r
    } else {
        let mut r = decimal(n / 10);
        push_char(&mut r, c);
        r
    }
}

/// `{"name": name, "path": path}`.
pub open spec fn dir_v(name: Seq<char>, path: Seq<char>) -> JsonV {
    JsonV::Obj(seq![("name"@, JsonV::Str(name)), ("path"@, JsonV::Str(path))])
}

/// A file's entry; its modification time is written in decimal
/// milliseconds, or empty where it is not known.
pub open spec fn file_v(name: Seq<char>, path: Seq<char>, size: u64, modified: Option<u128>) -> JsonV {
    JsonV::Obj(seq![
        ("name"@, JsonV::Str(name)),
        ("path"@, JsonV::Str(path)),
        ("size"@, JsonV::Num(size)),
        ("modified"@, JsonV::Str(match modified {
            Some(m) => decimal_spec(m as nat),
            None => Seq::empty(),
        })),
        ("isDir"@, JsonV::Bool(false)),
    ])
}

/// A directory's entry.
pub fn dir_entry(name: &str, path: &str) -> (r: Json)
    ensures
        r@ == dir_v(name@, path@),
{
    let mut v = Vec::new();
    v.push(member("name", jstr(name)));
    v.push(member("path", jstr(path)));
    proof {
        lemma_field_models(v@);
        assert(field_models(v@) =~= seq![("name"@, JsonV::Str(name@)), ("path"@, JsonV::Str(path@))]);
    }
    object(v)
}

/// A file's entry.
pub fn file_entry(name: &str, path: &str, size: u64, modified: Option<u128>) -> (r: Json)
    ensures
        r@ == file_v(name@, path@, size, modified),
{
    let m = match modified {
        Some(ms) => decimal(ms),
        None => String::new(),
    };
    let mut v = Vec::new();
    v.push(member("name", jstr(name)));
    v.push(member("path", jstr(path)));
    v.push(member("size", Json::Num(size)));
    v.push(member("modified", Json::Str(m)));
    v.push(member("isDir", Json::Bool(false)));
    proof {
        lemma_field_models(v@);
        assert(field_models(v@) =~= seq![
            ("name"@, JsonV::Str(name@)),
            ("path"@, JsonV::Str(path@)),
            ("size"@, JsonV::Num(size)),
            ("modified"@, JsonV::Str(match modified {
                Some(ms) => decimal_spec(ms as nat),
                None => Seq::empty(),
            })),
            ("isDir"@, JsonV::Bool(false)),
        ]);
    }
    object(v)
}

/// The directories and files found so far by a directory walk, in the
/// order they were found.
pub struct Listing {
    dirs: Vec<Json>,
    files: Vec<Json>,
}

impl View for Listing {
    type V = (Seq<JsonV>, Seq<JsonV>);

    closed spec fn view(&self) -> (Seq<JsonV>, Seq<JsonV>) {
        (models(self.dirs@), models(self.files@))
    }
}

/// `{"dirs": [...], "files": [...]}`.
pub open spec fn listing_v(l: (Seq<JsonV>, Seq<JsonV>)) -> JsonV {
    JsonV::Obj(seq![("dirs"@, JsonV::Arr(l.0)), ("files"@, JsonV::Arr(l.1))])
}

proof fn lemma_models_push(s: Seq<Json>, x: Json)
    ensures
        models(s.push(x)) == models(s).push(x@),
{
    lemma_models(s);
    lemma_models(s.push(x));
    assert(models(s.push(x)) =~= models(s).push(x@));
}

impl Listing {
    /// Nothing found yet.
    pub fn new() -> (l: Listing)
        ensures
            l@ == (Seq::<JsonV>::empty(), Seq::<JsonV>::empty()),
    {
        let l = Listing { dirs: Vec::new(), files: Vec::new() };
        assert(models(l.dirs@) =~= Seq::<JsonV>::empty());
        assert(models(l.files@) =~= Seq::<JsonV>::empty());
        l
    }

    /// Records a directory; the walk descends into it where it is recursive.
    pub fn add_dir(&mut self, name: &str, path: &str, recursive: bool) -> (descend: bool)
        ensures
            final(self)@ == (old(self)@.0.push(dir_v(name@, path@)), old(self)@.1),
            descend == recursive,
    {
        let e = dir_entry(name, path);
        proof {
            lemma_models_push(self.dirs@, e);
        }
        self.dirs.push(e);
        recursive
    }

    /// Records a file.
    pub fn add_file(&mut self, name: &str, path: &str, size: u64, modified: Option<u128>)
        ensures
            final(self)@ == (old(self)@.0, old(self)@.1.push(file_v(name@, path@, size, modified))),
    {
        let e = file_entry(name, path, size, modified);
        proof {
            lemma_models_push(self.files@, e);
        }
        self.files.push(e);
    }

    /// The reply body of `/ls`.
    pub fn into_json(self) -> (r: Json)
        ensures
            r@ == listing_v(self@),
    {
        let ghost l = self@;
        let Listing { dirs, files } = self;
        let mut v = Vec::new();
        v.push(member("dirs", array(dirs)));
        v.push(member("files", array(files)));
        proof {
            lemma_field_models(v@);
            assert(field_models(v@) =~= seq![("dirs"@, JsonV::Arr(l.0)), ("files"@, JsonV::Arr(l.1))]);
        }
        object(v)
    }
}

/// The root of a drive: its letter, `:` and `\`.
pub open spec fn drive_root_spec(letter: u8) -> Seq<char> {
    seq![letter as char, ':', '\\']
}

/// The letters that may name a drive, `A` to `Z`.
pub fn drive_letters() -> (r: Vec<u8>)
    ensures
        r@.len() == 26,
        forall|i: int| 0 <= i < 26 ==> #[trigger] r@[i] == 65 + i,
{
    let mut r = Vec::new();
    let mut c: u8 = 65;
    while c <= 90
        invariant
            65 <= c <= 91,
            r@.len() == c - 65,
            forall|i: int| 0 <= i < r@.len() ==> #[trigger] r@[i] == 65 + i,
        decreases 91 - c,
    {
        r.push(c);
        c = c + 1;
    }
    r
}

/// The root of the drive with this letter.
pub fn drive_root(letter: u8) -> (r: String)
    requires
        letter < 128,
    ensures
        r@ == drive_root_spec(letter),
{
    let mut r = String::new();
    push_char(&mut r, letter as char);
    push_char(&mut r, ':');
    push_char(&mut r, '\\');
    assert(r@ =~= drive_root_spec(letter));
    r
}

/// `{"name": "X:", "path": "X:\\"}` for a drive.
pub open spec fn drive_v(letter: u8) -> JsonV {
    dir_v(seq![letter as char, ':'], drive_root_spec(letter))
}

/// The entry of a drive.
pub fn drive_entry(letter: u8) -> (r: Json)
    requires
        letter < 128,
    ensures
        r@ == drive_v(letter),
{
    let root = drive_root(letter);
    let mut name = String::new();
    push_char(&mut name, letter as char);
    push_char(&mut name, ':');
    assert(name@ =~= seq![letter as char, ':']);
    dir_entry(name.as_str(), root.as_str())
}

/// `{"drives": [...]}`.
pub open spec fn drives_v(entries: Seq<JsonV>) -> JsonV {
    JsonV::Obj(seq![("drives"@, JsonV::Arr(entries))])
}

/// The reply body of `/drives`: the entries of the drives that exist.
pub fn drives_json(entries: Vec<Json>) -> (r: Json)
    ensures
        r@ == drives_v(models(entries@)),
{
    let ghost m = models(entries@);
    let mut v = Vec::new();
    v.push(member("drives", array(entries)));
    proof {
        lemma_field_models(v@);
        assert(field_models(v@) =~= seq![("drives"@, JsonV::Arr(m))]);
    }
    object(v)
}

/// The views of a list of strings.
pub open spec fn strings_view(v: Seq<String>) -> Seq<Seq<char>> {
    v.map_values(|x: String| x@)
}

/// The program and arguments that open a path on Windows: the file manager
/// with the item selected where `reveal`, else `start` through the shell.
pub fn native_open_command(path: &str, reveal: bool) -> (r: (String, Vec<String>))
    ensures
        reveal ==> r.0@ == "explorer"@ && strings_view(r.1@) == seq!["/select,"@, path@],
        !reveal ==> r.0@ == "cmd"@ && strings_view(r.1@) == seq!["/c"@, "start"@, ""@, path@],
{
    let mut args: Vec<String> = Vec::new();
    if reveal {
        args.push("/select,".to_owned());
        args.push(path.to_owned());
        assert(strings_view(args@) =~= seq!["/select,"@, path@]);
        ("explorer".to_owned(), args)
    } else {
        args.push("/c".to_owned());
        args.push("start".to_owned());
        args.push("".to_owned());
        args.push(path.to_owned());
        assert(strings_view(args@) =~= seq!["/c"@, "start"@, ""@, path@]);
        ("cmd".to_owned(), args)
    }
}

} // verus!
