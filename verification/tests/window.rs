use huali_desktop::window::{
    badge_count, child_label, child_plan, child_url, hides_on_close, launched_minimized, menu_action,
    navigate_script, plan_child_window, ChildPlan, MenuAction,
};

#[test]
fn child_label_replaces_separators() {
    assert_eq!(child_label("/pm2"), "app_pm2");
    assert_eq!(child_label("/file-search-v2"), "app_file_search_v2");
}

#[test]
fn child_label_maps_illegal_characters() {
    assert_eq!(child_label("/pm2?tab=1"), "app_pm2_tab_1");
    assert_eq!(child_label("/a:b_C9"), "app_a:b_C9");
    assert_eq!(child_label("/華利 x"), "app_華利_x");
    assert_eq!(child_label("/中文"), "app_中文");
    assert_ne!(child_label("/中文"), child_label("/英文"));
    let l = child_label("/sheets?id=3&x=%20。");
    assert!(l.chars().all(|c| c.is_alphanumeric() || "-/:_".contains(c)));
}

#[test]
fn route_with_query_gets_a_window() {
    assert_eq!(
        child_plan("/sheets?id=3", false),
        ChildPlan::Create {
            label: "app_sheets_id_3".to_string(),
            url: "https://huali-structure-app.qiaoyuhua2002.workers.dev/sheets?id=3&dsk=child".to_string()
        }
    );
}

#[test]
fn plan_from_parse_result() {
    assert_eq!(plan_child_window("/pm2", true, true), ChildPlan::Focus { label: "app_pm2".to_string() });
    assert_eq!(plan_child_window("/pm2", false, false), ChildPlan::Skip);
    assert_eq!(
        plan_child_window("/pm2", false, true),
        ChildPlan::Create {
            label: "app_pm2".to_string(),
            url: "https://huali-structure-app.qiaoyuhua2002.workers.dev/pm2?dsk=child".to_string()
        }
    );
}

#[test]
fn child_url_appends_dsk_parameter() {
    assert_eq!(child_url("/calendar"), "https://huali-structure-app.qiaoyuhua2002.workers.dev/calendar?dsk=child");
    assert_eq!(child_url("/sheets?id=3"), "https://huali-structure-app.qiaoyuhua2002.workers.dev/sheets?id=3&dsk=child");
}

#[test]
fn open_window_is_focused() {
    assert_eq!(child_plan("/pm2", true), ChildPlan::Focus { label: "app_pm2".to_string() });
}

#[test]
fn new_window_is_created() {
    assert_eq!(
        child_plan("/pm2", false),
        ChildPlan::Create {
            label: "app_pm2".to_string(),
            url: "https://huali-structure-app.qiaoyuhua2002.workers.dev/pm2?dsk=child".to_string()
        }
    );
}

#[test]
fn unparsable_url_is_skipped() {
    assert_eq!(child_plan(":99999999", false), ChildPlan::Skip);
}

#[test]
fn navigate_script_escapes_quotes() {
    assert_eq!(
        navigate_script("/pm2"),
        "window.location.assign('https://huali-structure-app.qiaoyuhua2002.workers.dev/pm2')"
    );
    assert_eq!(
        navigate_script("/x'y"),
        "window.location.assign('https://huali-structure-app.qiaoyuhua2002.workers.dev/x%27y')"
    );
}

#[test]
fn menu_ids() {
    assert_eq!(menu_action("show"), MenuAction::Show);
    assert_eq!(menu_action("quit"), MenuAction::Quit);
    assert_eq!(menu_action("nw:/pm2"), MenuAction::OpenWindow("/pm2".to_string()));
    assert_eq!(menu_action("app:/"), MenuAction::Navigate("/".to_string()));
    assert_eq!(menu_action("other"), MenuAction::Ignore);
    assert_eq!(menu_action("nw"), MenuAction::Ignore);
}

#[test]
fn only_main_hides_on_close() {
    assert!(hides_on_close("main"));
    assert!(!hides_on_close("app_pm2"));
}

#[test]
fn minimized_flag() {
    assert!(launched_minimized(&vec!["shell".to_string(), "--minimized".to_string()]));
    assert!(!launched_minimized(&vec!["shell".to_string()]));
}

#[test]
fn badge() {
    assert_eq!(badge_count(true), Some(1));
    assert_eq!(badge_count(false), None);
}
