use sinogi::router::{about_caption, about_message, menu_handler, Channel, MenuAction};

fn expect_page_event(id: &str, path: &str) {
    match menu_handler(id) {
        MenuAction::Emit(e) => {
            assert_eq!(e.channel, Channel::Page);
            assert_eq!(e.channel.name(), "page");
            assert_eq!(e.payload.as_deref(), Some(path));
        }
        _ => panic!("expected a page event for {}", id),
    }
}

#[test]
fn page_root_routes_to_root_page() {
    expect_page_event("page_root", "/");
}

#[test]
fn page_footprints_routes_to_footprints_page() {
    expect_page_event("page_footprints", "/footprints");
}

#[test]
fn page_books_routes_to_books_page() {
    // Exactly one event: channel "page", payload "/books", and nothing else.
    expect_page_event("page_books", "/books");
}

#[test]
fn import_book_routes_to_import_event_without_payload() {
    match menu_handler("import_book") {
        MenuAction::Emit(e) => {
            assert_eq!(e.channel, Channel::ImportBook);
            assert_eq!(e.channel.name(), "import_book");
            assert!(e.payload.is_none());
        }
        _ => panic!("expected the import event"),
    }
}

#[test]
fn version_routes_to_about_dialog() {
    assert!(matches!(menu_handler("version"), MenuAction::ShowAbout));
}

#[test]
fn unrecognized_identifier_is_a_no_op() {
    // Zero events, zero windows, and a normal return.
    assert!(matches!(menu_handler("does_not_exist"), MenuAction::Ignore));
    assert!(matches!(menu_handler(""), MenuAction::Ignore));
    assert!(matches!(menu_handler("page_roots"), MenuAction::Ignore));
    assert!(matches!(menu_handler("PAGE_ROOT"), MenuAction::Ignore));
}

#[test]
fn about_message_is_name_space_version() {
    assert_eq!(about_message("Sinogi", "0.1.0"), "Sinogi 0.1.0");
    assert_eq!(about_message("", ""), " ");
}

#[test]
fn about_caption_text() {
    assert_eq!(about_caption(), "詰碁練習アプリ\nDeveloped by Hiroki Takizawa");
}
