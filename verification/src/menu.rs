//! The static application menu: one submenu, built once at startup, handed
//! to the window manager by ownership, and never mutated afterwards.
use vstd::prelude::*;

verus! {

/// One entry of the submenu, in display order.
pub enum MenuEntry {
    /// A selectable item: a stable identifier used for dispatch, a display
    /// label, and an optional keyboard accelerator.
    Item { id: String, label: String, accelerator: Option<String> },
    /// A native separator line.
    Separator,
    /// The native quit item.
    Quit,
}

/// The whole menu: a single submenu with its caption and its entries.
pub struct MenuTree {
    pub submenu_label: String,
    pub entries: Vec<MenuEntry>,
}

/// Builds the application menu: the three page items, a separator, the
/// import item, a separator, the version item, a separator, and the native
/// quit item.
pub fn enable_menu() -> (m: MenuTree)
    ensures
        m.submenu_label@ == "Sinogi"@,
        m.entries@.len() == 9,
        (m.entries@[0] matches MenuEntry::Item { id, label, accelerator: Some(a) } && id@
            == "page_root"@ && label@ == "詰碁を解く"@ && a@ == "CmdOrCtrl+1"@),
        (m.entries@[1] matches MenuEntry::Item { id, label, accelerator: Some(a) } && id@
            == "page_footprints"@ && label@ == "あしあとを見る"@ && a@ == "CmdOrCtrl+2"@),
        (m.entries@[2] matches MenuEntry::Item { id, label, accelerator: Some(a) } && id@
            == "page_books"@ && label@ == "問題を管理する"@ && a@ == "CmdOrCtrl+3"@),
        m.entries@[3] matches MenuEntry::Separator,
        (m.entries@[4] matches MenuEntry::Item { id, label, accelerator: Some(a) } && id@
            == "import_book"@ && label@ == "ブックをインポートする"@ && a@ == "CmdOrCtrl+Shift+I"@),
        m.entries@[5] matches MenuEntry::Separator,
        (m.entries@[6] matches MenuEntry::Item { id, label, accelerator: None } && id@
            == "version"@ && label@ == "バージョン情報..."@),
        m.entries@[7] matches MenuEntry::Separator,
        m.entries@[8] matches MenuEntry::Quit,
{
    let mut entries: Vec<MenuEntry> = Vec::new();
    entries.push(
        MenuEntry::Item {
            id: "page_root".to_owned(),
            label: "詰碁を解く".to_owned(),
            accelerator: Some("CmdOrCtrl+1".to_owned()),
        },
    );
    entries.push(
        MenuEntry::Item {
            id: "page_footprints".to_owned(),
            label: "あしあとを見る".to_owned(),
            accelerator: Some("CmdOrCtrl+2".to_owned()),
        },
    );
    entries.push(
        MenuEntry::Item {
            id: "page_books".to_owned(),
            label: "問題を管理する".to_owned(),
            accelerator: Some("CmdOrCtrl+3".to_owned()),
        },
    );
    entries.push(MenuEntry::Separator);
    entries.push(
        MenuEntry::Item {
            id: "import_book".to_owned(),
            label: "ブックをインポートする".to_owned(),
            accelerator: Some("CmdOrCtrl+Shift+I".to_owned()),
        },
    );
    entries.push(MenuEntry::Separator);
    entries.push(
        MenuEntry::Item {
            id: "version".to_owned(),
            label: "バージョン情報...".to_owned(),
            accelerator: None,
        },
    );
    entries.push(MenuEntry::Separator);
    entries.push(MenuEntry::Quit);
    MenuTree { submenu_label: "Sinogi".to_owned(), entries }
}

/// Law: the five item identifiers of the menu are pairwise distinct, so
/// dispatch by identifier is unambiguous.
pub proof fn lemma_menu_identifiers_distinct()
    ensures
        "page_root"@ != "page_footprints"@,
        "page_root"@ != "page_books"@,
        "page_root"@ != "import_book"@,
        "page_root"@ != "version"@,
        "page_footprints"@ != "page_books"@,
        "page_footprints"@ != "import_book"@,
        "page_footprints"@ != "version"@,
        "page_books"@ != "import_book"@,
        "page_books"@ != "version"@,
        "import_book"@ != "version"@,
{
    reveal_strlit("page_root");
    reveal_strlit("page_footprints");
    reveal_strlit("page_books");
    reveal_strlit("import_book");
    reveal_strlit("version");
    assert("page_root"@.len() == 9);
    assert("page_footprints"@.len() == 15);
    assert("page_books"@.len() == 10);
    assert("import_book"@.len() == 11);
    assert("version"@.len() == 7);
}

} // verus!
