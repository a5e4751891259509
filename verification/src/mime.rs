//! The `Content-Type` of a served file, by its extension.

use vstd::prelude::*;
use crate::query::{split_on, lemma_split_nonempty};
use crate::text::chars_of;

verus! {

/// What follows the last `.` of a path (the whole path where it has none),
/// as `str::rsplit('.')` yields it first.
pub open spec fn extension_of(p: Seq<char>) -> Seq<char> {
    split_on(p, '.').last()
}

/// ASCII upper-case letters lowered; every other character kept.
pub open spec fn lower_char(c: char) -> char {
    if 'A' <= c && c <= 'Z' {
        ((c as u32) + 32) as char
    } else {
        c
    }
}

/// A text with its ASCII letters lowered.
pub open spec fn lower_ascii(s: Seq<char>) -> Seq<char> {
    s.map_values(|c: char| lower_char(c))
}

/// The media type for a lower-case extension.
pub open spec fn mime_for(e: Seq<char>) -> Seq<char> {
    if e == seq!['p', 'd', 'f'] {
        "application/pdf"@
    } else if e == seq!['p', 'n', 'g'] {
        "image/png"@
    } else if e == seq!['j', 'p', 'g'] || e == seq!['j', 'p', 'e', 'g'] {
        "image/jpeg"@
    } else if e == seq!['g', 'i', 'f'] {
        "image/gif"@
    } else if e == seq!['w', 'e', 'b', 'p'] {
        "image/webp"@
    } else if e == seq!['s', 'v', 'g'] {
        "image/svg+xml"@
    } else if e == seq!['m', 'p', '4'] {
        "video/mp4"@
    } else if e == seq!['w', 'e', 'b', 'm'] {
        "video/webm"@
    } else if e == seq!['m', 'p', '3'] {
        "audio/mpeg"@
    } else if e == seq!['t', 'x', 't'] || e == seq!['l', 'o', 'g'] || e == seq!['m', 'd'] {
        "text/plain"@
    } else if e == seq!['c', 's', 'v'] {
        "text/csv"@
    } else if e == seq!['j', 's', 'o', 'n'] {
        "application/json"@
    } else {
        "application/octet-stream"@
    }
}

/// The media type of a path: that of its extension, letters compared
/// without regard to case.
pub open spec fn mime_spec(p: Seq<char>) -> Seq<char> {
    mime_for(lower_ascii(extension_of(p)))
}

/// The last piece of a split is what follows the last delimiter.
proof fn lemma_last_piece(s: Seq<char>, d: char, j: int)
    requires
        -1 <= j < s.len(),
        j == -1 || s[j] == d,
        forall|k: int| j < k < s.len() ==> s[k] != d,
    ensures
        split_on(s, d).last() == s.skip(j + 1),
    decreases s.len(),
{
    lemma_split_nonempty(s, d);
    if s.len() == 0 {
        assert(s.skip(0) =~= s);
    } else if j == s.len() - 1 {
        assert(s.skip(j + 1) =~= Seq::<char>::empty());
    } else {
        assert(s[s.len() - 1] != d);
        lemma_split_nonempty(s.drop_last(), d);
        lemma_last_piece(s.drop_last(), d, j);
        assert(s.skip(j + 1) =~= s.drop_last().skip(j + 1).push(s.last()));
    }
}

fn same_chars(a: &Vec<char>, b: &[char]) -> (r: bool)
    ensures
        r == (a@ == b@),
{
    if a.len() != b.len() {
        return false;
    }
    let mut i: usize = 0;
    while i < a.len()
        invariant
            a@.len() == b@.len(),
            i <= a@.len(),
            forall|k: int| 0 <= k < i ==> a@[k] == b@[k],
        decreases a@.len() - i,
    {
        if a[i] != b[i] {
            return false;
        }
        i = i + 1;
    }
    assert(a@ =~= b@);
    true
}

/// The `Content-Type` for a file path, by what follows its last `.`
/// (`application/octet-stream` for an unknown or missing extension).
/// Letters are compared without regard to ASCII case; no other character
/// lowers to a letter that occurs in a known extension.
pub fn mime_of(p: &str) -> (r: &'static str)
    ensures
        r@ == mime_spec(p@),
{
    let v = chars_of(p);
    let mut start: usize = 0;
    let mut i: usize = 0;
    while i < v.len()
        invariant
            v@ == p@,
            i <= v@.len(),
            start <= i,
            start == 0 || v@[start - 1] == '.',
            forall|k: int| start <= k < i ==> v@[k] != '.',
        decreases v@.len() - i,
    {
        if v[i] == '.' {
            start = i + 1;
        }
        i = i + 1;
    }
    proof {
        lemma_last_piece(p@, '.', start - 1);
    }
    let mut e: Vec<char> = Vec::new();
    let mut k = start;
    while k < v.len()
        invariant
            v@ == p@,
            start <= k <= v@.len(),
            e@ == lower_ascii(v@.subrange(start as int, k as int)),
        decreases v@.len() - k,
    {
        let c = v[k];
        let l = if 'A' <= c && c <= 'Z' {
            char_lower(c)
        } else {
            c
        };
        e.push(l);
        assert(v@.subrange(start as int, k + 1) =~= v@.subrange(start as int, k as int).push(c));
        assert(e@ =~= lower_ascii(v@.subrange(start as int, k + 1)));
        k = k + 1;
    }
    assert(v@.subrange(start as int, v@.len() as int) =~= p@.skip(start as int));
    if same_chars(&e, &['p', 'd', 'f']) {
        "application/pdf"
    } else if same_chars(&e, &['p', 'n', 'g']) {
        "image/png"
    } else if same_chars(&e, &['j', 'p', 'g']) || same_chars(&e, &['j', 'p', 'e', 'g']) {
        "image/jpeg"
    } else if same_chars(&e, &['g', 'i', 'f']) {
        "image/gif"
    } else if same_chars(&e, &['w', 'e', 'b', 'p']) {
        "image/webp"
    } else if same_chars(&e, &['s', 'v', 'g']) {
        "image/svg+xml"
    } else if same_chars(&e, &['m', 'p', '4']) {
        "video/mp4"
    } else if same_chars(&e, &['w', 'e', 'b', 'm']) {
        "video/webm"
    } else if same_chars(&e, &['m', 'p', '3']) {
        "audio/mpeg"
    } else if same_chars(&e, &['t', 'x', 't']) || same_chars(&e, &['l', 'o', 'g']) || same_chars(&e, &['m', 'd']) {
        "text/plain"
    } else if same_chars(&e, &['c', 's', 'v']) {
        "text/csv"
    } else if same_chars(&e, &['j', 's', 'o', 'n']) {
        "application/json"
    } else {
        "application/octet-stream"
    }
}

/// The lower-case letter of an ASCII upper-case letter.
fn char_lower(c: char) -> (r: char)
    requires
        'A' <= c && c <= 'Z',
    ensures
        r == lower_char(c),
{
    let b = (c as u8) + 32;
    b as char
}

/// ASCII lower-case letters raised; every other character kept.
pub open spec fn upper_char(c: char) -> char {
    if 'a' <= c && c <= 'z' {
        ((c as u32) - 32) as char
    } else {
        c
    }
}

/// Where the last `d` in `s` stands (-1 where there is none).
proof fn lemma_last_index(s: Seq<char>, d: char) -> (j: int)
    ensures
        -1 <= j < s.len(),
        j == -1 || s[j] == d,
        forall|k: int| j < k < s.len() ==> s[k] != d,
    decreases s.len(),
{
    if s.len() == 0 {
        -1
    } else if s.last() == d {
        s.len() - 1
    } else {
        let j = lemma_last_index(s.drop_last(), d);
        assert forall|k: int| j < k < s.len() implies s[k] != d by {
            if k < s.len() - 1 {
                assert(s[k] == s.drop_last()[k]);
            }
        }
        if j >= 0 {
            assert(s[j] == s.drop_last()[j]);
        }
        j
    }
}

/// The media type goes by the extension alone: whatever precedes the last
/// `.` does not change it.
pub proof fn law_mime_by_extension(a: Seq<char>, e: Seq<char>)
    requires
        !e.contains('.'),
    ensures
        mime_spec(a + seq!['.'] + e) == mime_spec(e),
        extension_of(a + seq!['.'] + e) == e,
{
    let s = a + seq!['.'] + e;
    assert forall|k: int| a.len() < k < s.len() implies s[k] != '.' by {
        assert(s[k] == e[k - a.len() - 1]);
    }
    lemma_last_piece(s, '.', a.len() as int);
    assert(s.skip(a.len() as int + 1) =~= e);
    assert forall|k: int| -1 < k < e.len() implies e[k] != '.' by {}
    lemma_last_piece(e, '.', -1);
    assert(e.skip(0) =~= e);
}

/// Upper-casing the ASCII letters of a path does not change its media type.
pub proof fn law_mime_ignores_case(p: Seq<char>)
    ensures
        mime_spec(p.map_values(|c: char| upper_char(c))) == mime_spec(p),
{
    let u = p.map_values(|c: char| upper_char(c));
    let j = lemma_last_index(p, '.');
    lemma_last_piece(p, '.', j);
    assert forall|k: int| j < k < u.len() implies u[k] != '.' by {
        assert(p[k] != '.');
    }
    if j >= 0 {
        assert(u[j] == '.');
    }
    lemma_last_piece(u, '.', j);
    let ep = p.skip(j + 1);
    let eu = u.skip(j + 1);
    assert(lower_ascii(eu) =~= lower_ascii(ep)) by {
        assert forall|k: int| 0 <= k < ep.len() implies lower_char(#[trigger] eu[k]) == lower_char(ep[k]) by {
            let c = ep[k];
            assert(eu[k] == upper_char(c));
            if 'a' <= c && c <= 'z' {
                assert(upper_char(c) as u32 == (c as u32) - 32);
            }
        }
    }
}

/// The extensions with a media type of their own, in lower case.
pub open spec fn known_extensions() -> Seq<Seq<char>> {
    seq![
        seq!['p', 'd', 'f'], seq!['p', 'n', 'g'], seq!['j', 'p', 'g'], seq!['j', 'p', 'e', 'g'],
        seq!['g', 'i', 'f'], seq!['w', 'e', 'b', 'p'], seq!['s', 'v', 'g'], seq!['m', 'p', '4'],
        seq!['w', 'e', 'b', 'm'], seq!['m', 'p', '3'], seq!['t', 'x', 't'], seq!['l', 'o', 'g'],
        seq!['m', 'd'], seq!['c', 's', 'v'], seq!['j', 's', 'o', 'n'],
    ]
}

/// Any other extension, in whatever case, is served as
/// `application/octet-stream`.
pub proof fn law_unknown_extension_is_binary(a: Seq<char>, e: Seq<char>)
    requires
        !e.contains('.'),
        !known_extensions().contains(lower_ascii(e)),
    ensures
        mime_spec(a + seq!['.'] + e) == "application/octet-stream"@,
{
    law_mime_by_extension(a, e);
    let l = lower_ascii(e);
    let k = known_extensions();
    assert(l != k[0] && l != k[1] && l != k[2] && l != k[3] && l != k[4]) by {
        if l == k[0] { assert(k.contains(l)); }
        if l == k[1] { assert(k.contains(l)); }
        if l == k[2] { assert(k.contains(l)); }
        if l == k[3] { assert(k.contains(l)); }
        if l == k[4] { assert(k.contains(l)); }
    }
    assert(l != k[5] && l != k[6] && l != k[7] && l != k[8] && l != k[9]) by {
        if l == k[5] { assert(k.contains(l)); }
        if l == k[6] { assert(k.contains(l)); }
        if l == k[7] { assert(k.contains(l)); }
        if l == k[8] { assert(k.contains(l)); }
        if l == k[9] { assert(k.contains(l)); }
    }
    assert(l != k[10] && l != k[11] && l != k[12] && l != k[13] && l != k[14]) by {
        if l == k[10] { assert(k.contains(l)); }
        if l == k[11] { assert(k.contains(l)); }
        if l == k[12] { assert(k.contains(l)); }
        if l == k[13] { assert(k.contains(l)); }
        if l == k[14] { assert(k.contains(l)); }
    }
}

proof fn lemma_lower_is_identity(e: Seq<char>)
    requires
        forall|i: int| 0 <= i < e.len() ==> !('A' <= #[trigger] e[i] && e[i] <= 'Z'),
    ensures
        lower_ascii(e) == e,
{
    assert(lower_ascii(e) =~= e);
}

/// The media type of each known extension, whatever precedes it.
pub proof fn law_known_extensions(a: Seq<char>)
    ensures
        mime_spec(a + seq!['.'] + seq!['p', 'd', 'f']) == "application/pdf"@,
        mime_spec(a + seq!['.'] + seq!['p', 'n', 'g']) == "image/png"@,
        mime_spec(a + seq!['.'] + seq!['j', 'p', 'g']) == "image/jpeg"@,
        mime_spec(a + seq!['.'] + seq!['j', 'p', 'e', 'g']) == "image/jpeg"@,
        mime_spec(a + seq!['.'] + seq!['g', 'i', 'f']) == "image/gif"@,
        mime_spec(a + seq!['.'] + seq!['w', 'e', 'b', 'p']) == "image/webp"@,
        mime_spec(a + seq!['.'] + seq!['s', 'v', 'g']) == "image/svg+xml"@,
        mime_spec(a + seq!['.'] + seq!['m', 'p', '4']) == "video/mp4"@,
        mime_spec(a + seq!['.'] + seq!['w', 'e', 'b', 'm']) == "video/webm"@,
        mime_spec(a + seq!['.'] + seq!['m', 'p', '3']) == "audio/mpeg"@,
        mime_spec(a + seq!['.'] + seq!['t', 'x', 't']) == "text/plain"@,
        mime_spec(a + seq!['.'] + seq!['l', 'o', 'g']) == "text/plain"@,
        mime_spec(a + seq!['.'] + seq!['m', 'd']) == "text/plain"@,
        mime_spec(a + seq!['.'] + seq!['c', 's', 'v']) == "text/csv"@,
        mime_spec(a + seq!['.'] + seq!['j', 's', 'o', 'n']) == "application/json"@,
{
    let k = known_extensions();
    assert forall|j: int| 0 <= j < 15 implies !(#[trigger] k[j]).contains('.') && lower_ascii(k[j]) == k[j] by {
        let x = k[j];
        assert forall|i: int| 0 <= i < x.len() implies !('A' <= #[trigger] x[i] && x[i] <= 'Z') && x[i] != '.' by {}
        lemma_lower_is_identity(x);
    }
    law_mime_by_extension(a, k[0]);
    law_mime_by_extension(a, k[1]);
    law_mime_by_extension(a, k[2]);
    law_mime_by_extension(a, k[3]);
    law_mime_by_extension(a, k[4]);
    law_mime_by_extension(a, k[5]);
    law_mime_by_extension(a, k[6]);
    law_mime_by_extension(a, k[7]);
    law_mime_by_extension(a, k[8]);
    law_mime_by_extension(a, k[9]);
    law_mime_by_extension(a, k[10]);
    law_mime_by_extension(a, k[11]);
    law_mime_by_extension(a, k[12]);
    law_mime_by_extension(a, k[13]);
    law_mime_by_extension(a, k[14]);
}

} // verus!
