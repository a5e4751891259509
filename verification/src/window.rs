//! Decisions about the shell's windows: which window a portal app opens in
//! and at which URL, how the main window is sent to a route, what a tray
//! menu entry does, and which windows hide instead of closing.

use vstd::prelude::*;
use crate::reply::PORTAL_BASE;
use crate::text::{chars_of, concat, owned, contains_char, push_char, push_str, str_eq, starts_with, string_from_chars};

verus! {

/// Whether `url::Url::parse` accepts the text.
pub uninterp spec fn url_parses(s: Seq<char>) -> bool;

/// `url::Url::parse(s).is_ok()`: whether the text is a URL that can be
/// loaded. The result is a function of `s` alone; what it is, is left to
/// the name `url_parses`.
#[verifier::external_body]
fn parses_as_url(s: &str) -> (r: bool)
    ensures
        r == url_parses(s@),
{
    url::Url::parse(s).is_ok()
}

/// Whether `char::is_alphanumeric` holds of the character (Unicode's
/// `Alphabetic` property, or a numeric general category).
pub uninterp spec fn unicode_alphanumeric(c: char) -> bool;

/// `char::is_alphanumeric`. The result is a function of `c` alone, left to
/// the name `unicode_alphanumeric`; of ASCII characters, exactly the letters
/// and the digits are alphanumeric, as the Unicode properties it reads say.
#[verifier::external_body]
fn is_alphanumeric(c: char) -> (r: bool)
    ensures
        r == unicode_alphanumeric(c),
        (c as u32) < 128 ==> (r <==> ascii_alphanumeric(c)),
{
    c.is_alphanumeric()
}

/// ASCII letters and digits.
pub open spec fn ascii_alphanumeric(c: char) -> bool {
    ('a' <= c && c <= 'z') || ('A' <= c && c <= 'Z') || ('0' <= c && c <= '9')
}

/// The characters a window label may hold: letters and digits (by
/// `char::is_alphanumeric`, which holds of the ASCII ones), `-`, `/`, `:`
/// and `_`.
pub open spec fn is_label_char(c: char) -> bool {
    ascii_alphanumeric(c) || unicode_alphanumeric(c) || c == '-' || c == '/' || c == ':' || c == '_'
}

/// A route character as it stands in a label: `/` and `-` become `_`, as
/// does every character a label may not hold; letters, digits, `:` and `_`
/// are kept.
pub open spec fn label_char(c: char) -> char {
    if c == '/' || c == '-' {
        '_'
    } else if ascii_alphanumeric(c) || unicode_alphanumeric(c) || c == ':' || c == '_' {
        c
    } else {
        '_'
    }
}

/// The label of the window that shows a portal route: `app` and the route
/// with each character mapped by `label_char`, so that a route always gets
/// the same window and the label is one the window system accepts.
pub open spec fn child_label_spec(route: Seq<char>) -> Seq<char> {
    "app"@ + route.map_values(|c: char| label_char(c))
}

/// The URL a child window loads: the portal, the route, and `dsk=child`
/// appended as a further query parameter (after `&` where the route already
/// has a query, else after `?`), so that the page draws no title bar.
pub open spec fn child_url_spec(route: Seq<char>) -> Seq<char> {
    PORTAL_BASE@ + route + seq![if route.contains('?') { '&' } else { '?' }] + "dsk=child"@
}

/// The window label for a route.
pub fn child_label(route: &str) -> (r: String)
    ensures
        r@ == child_label_spec(route@),
{
    let v = chars_of(route);
    let mut r = owned("app");
    let ghost head = r@;
    let mut i: usize = 0;
    while i < v.len()
        invariant
            v@ == route@,
            i <= v@.len(),
            head == "app"@,
            r@ == head + v@.take(i as int).map_values(|c: char| label_char(c)),
        decreases v@.len() - i,
    {
        let c = v[i];
        let mapped = if c == '/' || c == '-' {
            '_'
        } else if is_alphanumeric(c) || c == ':' || c == '_' {
            c
        } else {
            '_'
        };
        push_char(&mut r, mapped);
        assert(v@.take(i + 1).map_values(|c: char| label_char(c)) =~= v@.take(i as int).map_values(
            |c: char| label_char(c),
        ).push(label_char(c)));
        i = i + 1;
    }
    assert(v@.take(v@.len() as int) =~= v@);
    r
}

/// The URL a child window loads for a route.
pub fn child_url(route: &str) -> (r: String)
    ensures
        r@ == child_url_spec(route@),
{
    let mut r = concat(PORTAL_BASE, route);
    push_char(&mut r, if contains_char(route, '?') { '&' } else { '?' });
    push_str(&mut r, "dsk=child");
    r
}

/// What opening a route in its own window comes to.
#[derive(Debug, PartialEq, Eq)]
pub enum ChildPlan {
    /// The window is open already: show and focus it.
    Focus { label: String },
    /// Create a window with this label at this URL.
    Create { label: String, url: String },
    /// The URL does not parse: do nothing.
    Skip,
}

/// Plans opening `route` in its own window, given whether a window with its
/// label is open and whether its URL parses: focus the open window, else
/// create one where the URL parses, else do nothing.
pub fn plan_child_window(route: &str, already_open: bool, url_ok: bool) -> (p: ChildPlan)
    ensures
        already_open ==> (p matches ChildPlan::Focus { label } && label@ == child_label_spec(route@)),
        !already_open && url_ok ==> (p matches ChildPlan::Create { label, url }
            && label@ == child_label_spec(route@) && url@ == child_url_spec(route@)),
        !already_open && !url_ok ==> p is Skip,
{
    let label = child_label(route);
    if already_open {
        ChildPlan::Focus { label }
    } else if url_ok {
        ChildPlan::Create { label, url: child_url(route) }
    } else {
        ChildPlan::Skip
    }
}

/// Plans opening `route` in its own window, given whether a window with its
/// label is open; where none is, the URL is checked with `url::Url::parse`.
pub fn child_plan(route: &str, already_open: bool) -> (p: ChildPlan)
    ensures
        already_open ==> (p matches ChildPlan::Focus { label } && label@ == child_label_spec(route@)),
        !already_open && url_parses(child_url_spec(route@)) ==> (p matches ChildPlan::Create { label, url }
            && label@ == child_label_spec(route@) && url@ == child_url_spec(route@)),
        !already_open && !url_parses(child_url_spec(route@)) ==> p is Skip,
{
    let url_ok = if already_open {
        false
    } else {
        let url = child_url(route);
        parses_as_url(url.as_str())
    };
    plan_child_window(route, already_open, url_ok)
}

/// `s` with each `'` written as `%27`.
pub open spec fn escape_quotes(s: Seq<char>) -> Seq<char>
    decreases s.len(),
{
    if s.len() == 0 {
        Seq::empty()
    } else {
        escape_quotes(s.drop_last()) + if s.last() == '\'' {
            seq!['%', '2', '7']
        } else {
            seq![s.last()]
        }
    }
}

/// The script that sends the main window to a portal route.
pub open spec fn navigate_script_spec(route: Seq<char>) -> Seq<char> {
    "window.location.assign('"@ + escape_quotes(PORTAL_BASE@ + route) + "')"@
}

/// The script that sends the main window to a portal route; the URL is put
/// in single quotes with every `'` in it written as `%27`.
pub fn navigate_script(route: &str) -> (r: String)
    ensures
        r@ == navigate_script_spec(route@),
{
    let url = concat(PORTAL_BASE, route);
    let v = chars_of(url.as_str());
    let mut r = String::new();
    push_str(&mut r, "window.location.assign('");
    let ghost head = r@;
    let mut i: usize = 0;
    while i < v.len()
        invariant
            i <= v@.len(),
            r@ == head + escape_quotes(v@.take(i as int)),
        decreases v@.len() - i,
    {
        if v[i] == '\'' {
            push_str(&mut r, "%27");
            proof {
                reveal_strlit("%27");
            }
        } else {
            push_char(&mut r, v[i]);
        }
        assert(v@.take(i + 1).drop_last() =~= v@.take(i as int));
        assert(r@ =~= head + escape_quotes(v@.take(i + 1)));
        i = i + 1;
    }
    assert(v@.take(v@.len() as int) =~= v@);
    push_str(&mut r, "')");
    r
}

/// The escaped URL holds no `'`, so it cannot end the quoted string early.
pub proof fn law_escaped_has_no_quote(s: Seq<char>)
    ensures
        !escape_quotes(s).contains('\''),
    decreases s.len(),
{
    if s.len() > 0 {
        law_escaped_has_no_quote(s.drop_last());
        let a = escape_quotes(s.drop_last());
        let b = if s.last() == '\'' { seq!['%', '2', '7'] } else { seq![s.last()] };
        if (a + b).contains('\'') {
            let k = choose|k: int| 0 <= k < (a + b).len() && (a + b)[k] == '\'';
            if k < a.len() {
                assert(a[k] == '\'');
            } else {
                assert(b[k - a.len()] == '\'');
            }
        }
    }
}

/// What a tray menu entry does.
#[derive(Debug, PartialEq, Eq)]
pub enum MenuAction {
    /// Show and focus the main window.
    Show,
    /// Leave the application.
    Quit,
    /// Open the route in its own window.
    OpenWindow(String),
    /// Send the main window to the route.
    Navigate(String),
    /// Nothing.
    Ignore,
}

/// What a menu action denotes.
pub enum MenuActionV {
    Show,
    Quit,
    OpenWindow(Seq<char>),
    Navigate(Seq<char>),
    Ignore,
}

/// What the menu entry with this id does: `show` and `quit` are themselves;
/// `nw:<route>` opens a route in a new window; `app:<route>` sends the main
/// window there; anything else does nothing.
pub open spec fn menu_action_spec(id: Seq<char>) -> MenuActionV {
    if id == "show"@ {
        MenuActionV::Show
    } else if id == "quit"@ {
        MenuActionV::Quit
    } else if "nw:"@.len() <= id.len() && id.take(3) == "nw:"@ {
        MenuActionV::OpenWindow(id.skip(3))
    } else if "app:"@.len() <= id.len() && id.take(4) == "app:"@ {
        MenuActionV::Navigate(id.skip(4))
    } else {
        MenuActionV::Ignore
    }
}

impl View for MenuAction {
    type V = MenuActionV;

    open spec fn view(&self) -> MenuActionV {
        match self {
            MenuAction::Show => MenuActionV::Show,
            MenuAction::Quit => MenuActionV::Quit,
            MenuAction::OpenWindow(r) => MenuActionV::OpenWindow(r@),
            MenuAction::Navigate(r) => MenuActionV::Navigate(r@),
            MenuAction::Ignore => MenuActionV::Ignore,
        }
    }
}

/// The text after the first `n` characters.
fn suffix_after(s: &str, n: usize) -> (r: String)
    requires
        n <= s@.len(),
    ensures
        r@ == s@.skip(n as int),
{
    let v = chars_of(s);
    string_from_chars(&v, n, v.len())
}

/// Decides what a tray menu entry does.
pub fn menu_action(id: &str) -> (a: MenuAction)
    ensures
        a@ == menu_action_spec(id@),
{
    proof {
        reveal_strlit("nw:");
        reveal_strlit("app:");
    }
    if str_eq(id, "show") {
        MenuAction::Show
    } else if str_eq(id, "quit") {
        MenuAction::Quit
    } else if starts_with(id, "nw:") {
        MenuAction::OpenWindow(suffix_after(id, 3))
    } else if starts_with(id, "app:") {
        MenuAction::Navigate(suffix_after(id, 4))
    } else {
        MenuAction::Ignore
    }
}

/// Closing the main window hides every window instead; other windows close.
pub fn hides_on_close(label: &str) -> (r: bool)
    ensures
        r == (label@ == "main"@),
{
    str_eq(label, "main")
}

/// Whether the shell was started with `--minimized` (by autostart), and so
/// keeps its main window hidden.
pub fn launched_minimized(args: &Vec<String>) -> (r: bool)
    ensures
        r == exists|i: int| 0 <= i < args@.len() && (#[trigger] args@[i])@ == "--minimized"@,
{
    let mut i: usize = 0;
    while i < args.len()
        invariant
            i <= args@.len(),
            forall|j: int| 0 <= j < i ==> (#[trigger] args@[j])@ != "--minimized"@,
        decreases args@.len() - i,
    {
        if str_eq(args[i].as_str(), "--minimized") {
            return true;
        }
        i = i + 1;
    }
    false
}

/// The badge count the main window shows: one while there is news, none
/// otherwise.
pub fn badge_count(on: bool) -> (r: Option<i64>)
    ensures
        r == (if on { Some(1i64) } else { None }),
{
    if on { Some(1) } else { None }
}

/// A child window's label starts with `app`, holds only characters a label
/// may hold, and keeps each route character that a label may hold, but for
/// `/` and `-`, which become `_`.
pub proof fn law_child_label_clean(route: Seq<char>)
    ensures
        child_label_spec(route).take(3) == "app"@,
        child_label_spec(route).len() == route.len() + 3,
        forall|i: int| 0 <= i < child_label_spec(route).len() ==> is_label_char(#[trigger] child_label_spec(route)[i]),
        forall|i: int| 0 <= i < route.len() && is_label_char(#[trigger] route[i]) ==> child_label_spec(route)[i + 3]
            == (if route[i] == '/' || route[i] == '-' { '_' } else { route[i] }),
{
    reveal_strlit("app");
    let l = child_label_spec(route);
    assert(l.take(3) =~= "app"@);
    assert forall|i: int| 0 <= i < l.len() implies is_label_char(#[trigger] l[i]) by {
        if i >= 3 {
            assert(l[i] == label_char(route[i - 3]));
        } else {
            assert(l[i] == "app"@[i]);
        }
    }
    assert forall|i: int| 0 <= i < route.len() && is_label_char(#[trigger] route[i]) implies l[i + 3]
        == (if route[i] == '/' || route[i] == '-' { '_' } else { route[i] }) by {
        assert(l[i + 3] == label_char(route[i]));
    }
}

/// A child window's URL is the portal's, with the route, and ends with the
/// `dsk=child` parameter.
pub proof fn law_child_url_shape(route: Seq<char>)
    ensures
        child_url_spec(route).take(PORTAL_BASE@.len() as int) == PORTAL_BASE@,
        child_url_spec(route).skip(child_url_spec(route).len() - "dsk=child"@.len()) == "dsk=child"@,
{
    let u = child_url_spec(route);
    assert(u.take(PORTAL_BASE@.len() as int) =~= PORTAL_BASE@);
    assert(u.skip(u.len() - "dsk=child"@.len()) =~= "dsk=child"@);
}

/// A menu id `nw:<route>` opens the route in a new window, and `app:<route>`
/// sends the main window to it.
pub proof fn law_menu_routes(route: Seq<char>)
    ensures
        menu_action_spec("nw:"@ + route) == MenuActionV::OpenWindow(route),
        menu_action_spec("app:"@ + route) == MenuActionV::Navigate(route),
{
    reveal_strlit("nw:");
    reveal_strlit("app:");
    reveal_strlit("show");
    reveal_strlit("quit");
    let a = "nw:"@ + route;
    let b = "app:"@ + route;
    assert(a[0] == 'n');
    assert(a != "show"@ && a != "quit"@) by {
        assert("show"@[0] == 's');
        assert("quit"@[0] == 'q');
    }
    assert(a.take(3) =~= "nw:"@);
    assert(a.skip(3) =~= route);
    assert(b[0] == 'a');
    assert(b != "show"@ && b != "quit"@) by {
        assert("show"@[0] == 's');
        assert("quit"@[0] == 'q');
    }
    assert(b.take(3) != "nw:"@) by {
        assert(b.take(3)[0] == 'a');
    }
    assert(b.take(4) =~= "app:"@);
    assert(b.skip(4) =~= route);
}

/// A child window's URL holds the route exactly as given, between the
/// portal and one separator (`&` where the route has a query, else `?`)
/// followed by `dsk=child`, and nothing else.
pub proof fn law_child_url_holds_route(route: Seq<char>)
    ensures
        child_url_spec(route).len() == PORTAL_BASE@.len() + route.len() + 1 + "dsk=child"@.len(),
        child_url_spec(route).subrange(PORTAL_BASE@.len() as int, PORTAL_BASE@.len() + route.len() as int) == route,
        child_url_spec(route)[PORTAL_BASE@.len() + route.len() as int] == (if route.contains('?') { '&' } else { '?' }),
        child_url_spec(route).take(PORTAL_BASE@.len() as int) == PORTAL_BASE@,
        child_url_spec(route).skip(PORTAL_BASE@.len() + route.len() as int + 1) == "dsk=child"@,
{
    let u = child_url_spec(route);
    let n = PORTAL_BASE@.len() as int;
    assert(u.subrange(n, n + route.len()) =~= route);
    assert(u.take(n) =~= PORTAL_BASE@);
    assert(u.skip(n + route.len() + 1) =~= "dsk=child"@);
}

} // verus!
