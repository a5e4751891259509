use huali_desktop::files::native_open_command;
use huali_desktop::files::{decimal, drive_entry, drive_letters, drive_root, drives_json, file_entry, Listing};
use huali_desktop::json::Json;

fn render(j: &Json) -> String {
    match j {
        Json::Null => "null".to_string(),
        Json::Bool(b) => b.to_string(),
        Json::Num(n) => n.to_string(),
        Json::Str(s) => format!("{:?}", s),
        Json::Arr(v) => format!("[{}]", v.iter().map(render).collect::<Vec<_>>().join(",")),
        Json::Obj(v) => format!(
            "{{{}}}",
            v.iter().map(|(k, x)| format!("{:?}:{}", k, render(x))).collect::<Vec<_>>().join(",")
        ),
    }
}

#[test]
fn decimals() {
    assert_eq!(decimal(0), "0");
    assert_eq!(decimal(7), "7");
    assert_eq!(decimal(1_700_000_000_123), "1700000000123");
    assert_eq!(decimal(u128::MAX), u128::MAX.to_string());
}

#[test]
fn file_entries() {
    assert_eq!(
        render(&file_entry("a.txt", "/d/a.txt", 12, Some(1500))),
        "{\"name\":\"a.txt\",\"path\":\"/d/a.txt\",\"size\":12,\"modified\":\"1500\",\"isDir\":false}"
    );
    assert_eq!(
        render(&file_entry("b", "/d/b", 0, None)),
        "{\"name\":\"b\",\"path\":\"/d/b\",\"size\":0,\"modified\":\"\",\"isDir\":false}"
    );
}

#[test]
fn listing_keeps_order() {
    let mut l = Listing::new();
    assert!(l.add_dir("sub", "/d/sub", true));
    l.add_file("x", "/d/sub/x", 1, None);
    assert!(!l.add_dir("s2", "/d/s2", false));
    assert_eq!(
        render(&l.into_json()),
        "{\"dirs\":[{\"name\":\"sub\",\"path\":\"/d/sub\"},{\"name\":\"s2\",\"path\":\"/d/s2\"}],\"files\":[{\"name\":\"x\",\"path\":\"/d/sub/x\",\"size\":1,\"modified\":\"\",\"isDir\":false}]}"
    );
}

#[test]
fn drives() {
    let letters = drive_letters();
    assert_eq!(letters.len(), 26);
    assert_eq!(letters[0], b'A');
    assert_eq!(letters[25], b'Z');
    assert_eq!(drive_root(b'C'), "C:\\");
    assert_eq!(render(&drives_json(vec![drive_entry(b'C')])), "{\"drives\":[{\"name\":\"C:\",\"path\":\"C:\\\\\"}]}");
    assert_eq!(render(&drives_json(vec![])), "{\"drives\":[]}");
}

#[test]
fn native_open_commands() {
    assert_eq!(
        native_open_command("C:\\a.pdf", true),
        ("explorer".to_string(), vec!["/select,".to_string(), "C:\\a.pdf".to_string()])
    );
    assert_eq!(
        native_open_command("C:\\a.pdf", false),
        ("cmd".to_string(), vec!["/c".to_string(), "start".to_string(), String::new(), "C:\\a.pdf".to_string()])
    );
}
