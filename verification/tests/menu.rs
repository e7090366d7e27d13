use sinogi::menu::{enable_menu, MenuEntry};

fn expect_item(e: &MenuEntry, id: &str, label: &str, accelerator: Option<&str>) {
    match e {
        MenuEntry::Item { id: i, label: l, accelerator: a } => {
            assert_eq!(i, id);
            assert_eq!(l, label);
            assert_eq!(a.as_deref(), accelerator);
        }
        _ => panic!("expected the item {}", id),
    }
}

#[test]
fn menu_has_the_documented_shape() {
    let m = enable_menu();
    assert_eq!(m.submenu_label, "Sinogi");
    assert_eq!(m.entries.len(), 9);
    expect_item(&m.entries[0], "page_root", "詰碁を解く", Some("CmdOrCtrl+1"));
    expect_item(&m.entries[1], "page_footprints", "あしあとを見る", Some("CmdOrCtrl+2"));
    expect_item(&m.entries[2], "page_books", "問題を管理する", Some("CmdOrCtrl+3"));
    assert!(matches!(m.entries[3], MenuEntry::Separator));
    expect_item(&m.entries[4], "import_book", "ブックをインポートする", Some("CmdOrCtrl+Shift+I"));
    assert!(matches!(m.entries[5], MenuEntry::Separator));
    expect_item(&m.entries[6], "version", "バージョン情報...", None);
    assert!(matches!(m.entries[7], MenuEntry::Separator));
    assert!(matches!(m.entries[8], MenuEntry::Quit));
}

#[test]
fn menu_identifiers_are_unique() {
    let m = enable_menu();
    let mut ids: Vec<String> = Vec::new();
    for e in &m.entries {
        if let MenuEntry::Item { id, .. } = e {
            assert!(!ids.contains(id));
            ids.push(id.clone());
        }
    }
    assert_eq!(ids.len(), 5);
}
