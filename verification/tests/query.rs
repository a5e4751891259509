use huali_desktop::query::{parse_query, split_target};
use huali_desktop::urlcodec::decode_or_keep_str;

#[test]
fn splits_target_at_first_question_mark() {
    let (p, q) = split_target("/ls?path=C%3A%5C&recursive=true");
    assert_eq!(p, "/ls");
    assert_eq!(q, "path=C%3A%5C&recursive=true");
    let (p, q) = split_target("/a?b?c");
    assert_eq!(p, "/a");
    assert_eq!(q, "b?c");
}

#[test]
fn target_without_query() {
    let (p, q) = split_target("/ping");
    assert_eq!(p, "/ping");
    assert_eq!(q, "");
}

#[test]
fn parses_and_decodes_pairs() {
    let m = parse_query("path=C%3A%5Cdocs%20x&recursive=true");
    assert_eq!(m.get("path").map(|s| s.as_str()), Some("C:\\docs x"));
    assert_eq!(m.get("recursive").map(|s| s.as_str()), Some("true"));
    assert_eq!(m.get("missing"), None);
}

#[test]
fn later_pair_overrides_earlier() {
    let m = parse_query("on=0&x=1&on=1");
    assert_eq!(m.get("on").map(|s| s.as_str()), Some("1"));
    assert_eq!(m.get("x").map(|s| s.as_str()), Some("1"));
}

#[test]
fn empty_pieces_skipped_and_bare_keys_have_empty_value() {
    let m = parse_query("&&flag&k=v=w&");
    assert_eq!(m.get("flag").map(|s| s.as_str()), Some(""));
    assert_eq!(m.get("k").map(|s| s.as_str()), Some("v=w"));
    assert_eq!(m.get(""), None);
}

#[test]
fn plus_is_kept_and_bad_utf8_is_kept_raw() {
    let m = parse_query("a=1+2&b=%FF&c=%4");
    assert_eq!(m.get("a").map(|s| s.as_str()), Some("1+2"));
    assert_eq!(m.get("b").map(|s| s.as_str()), Some("%FF"));
    assert_eq!(m.get("c").map(|s| s.as_str()), Some("%4"));
}

#[test]
fn decodes_multibyte_text() {
    assert_eq!(decode_or_keep_str("%E8%8F%AF%E5%88%A9"), "華利");
    assert_eq!(decode_or_keep_str("%zz%41"), "%zzA");
}

#[test]
fn empty_query_is_empty_map() {
    let m = parse_query("");
    assert_eq!(m.get(""), None);
}

#[test]
fn encoded_pairs_parse_back() {
    let pairs = [("a b", "x&y=z"), ("華", "%41+"), ("", "v")];
    let q = pairs
        .iter()
        .map(|(k, v)| format!("{}={}", urlencoding::encode(k), urlencoding::encode(v)))
        .collect::<Vec<_>>()
        .join("&");
    let m = parse_query(&q);
    for (k, v) in pairs.iter() {
        assert_eq!(m.get(k).map(|s| s.as_str()), Some(*v));
    }
    assert_eq!(decode_or_keep_str(&urlencoding::encode("x&y")), "x&y");
}

#[test]
fn joined_queries_override() {
    let m = parse_query("a=1&b=2&b=3&c=4");
    assert_eq!(m.get("a").map(|s| s.as_str()), Some("1"));
    assert_eq!(m.get("b").map(|s| s.as_str()), Some("3"));
    assert_eq!(m.get("c").map(|s| s.as_str()), Some("4"));
}
