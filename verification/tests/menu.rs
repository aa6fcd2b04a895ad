use markit::menu::app_menu;
use markit::menu::menu_event_for;
use markit::menu::toast_event;
use markit::menu::EventPayload;
use markit::menu::MenuEntry;

fn plain(id: &str, event: &str) {
    let e = menu_event_for(id).expect(id);
    assert_eq!(e.name, event);
    assert!(matches!(e.payload, EventPayload::Empty));
}

fn text(id: &str, event: &str, expected: &str) {
    let e = menu_event_for(id).expect(id);
    assert_eq!(e.name, event);
    match e.payload {
        EventPayload::Text(t) => assert_eq!(t, expected),
        _ => panic!("expected a text payload for {id}"),
    }
}

#[test]
fn gist_selections_publish_with_secrecy() {
    let e = menu_event_for("gist_secret").unwrap();
    assert_eq!(e.name, "PUBLISH_GIST");
    assert!(matches!(e.payload, EventPayload::Gist { secret: true }));
    let e = menu_event_for("gist_public").unwrap();
    assert_eq!(e.name, "PUBLISH_GIST");
    assert!(matches!(e.payload, EventPayload::Gist { secret: false }));
}

#[test]
fn plain_selections() {
    plain("open_folder", "OPEN_WORKSPACE_FOLDER");
    plain("export_html", "EXPORT_TO_HTML");
    plain("export_pdf", "DO_EXPORT_PDF");
    plain("export_png", "DO_EXPORT_PNG");
    plain("toggle_preview", "TOGGLE_PREVIEW");
    plain("open_settings", "OPEN_SETTINGS");
    plain("toggle_toc", "TOGGLE_TOC");
    plain("edit_undo", "EDIT_UNDO");
    plain("edit_redo", "EDIT_REDO");
    plain("edit_cut", "EDIT_CUT");
    plain("edit_copy", "EDIT_COPY");
    plain("edit_paste", "EDIT_PASTE");
    plain("edit_select_all", "EDIT_SELECT_ALL");
}

#[test]
fn theme_selections_carry_the_theme_id() {
    text("theme_yonce", "SET_THEME", "yonce");
    text("theme_ayu_dark", "SET_THEME", "ayu-dark");
    text("theme_darcula", "SET_THEME", "darcula");
    text("theme_material", "SET_THEME", "material");
    text("theme_monokai", "SET_THEME", "monokai");
}

#[test]
fn help_selections_carry_urls() {
    text("welcome", "OPEN_URL", "https://saketh-kowtha.github.io/markit/");
    text("release_notes", "OPEN_URL", "https://github.com/saketh-kowtha/markit/releases");
    text("report_issue", "OPEN_URL", "https://github.com/saketh-kowtha/markit/issues");
    text("follow_twitter", "OPEN_URL", "https://twitter.com/saketh_kowtha");
}

#[test]
fn unknown_id_is_ignored() {
    assert!(menu_event_for("").is_none());
    assert!(menu_event_for("quit").is_none());
    assert!(menu_event_for("theme_yonce2").is_none());
}

#[test]
fn menu_tree_shape() {
    let m = app_menu();
    assert_eq!(m.len(), 7);
    let titles: Vec<&str> = m.iter().map(|s| s.title.as_str()).collect();
    assert_eq!(titles, ["File", "Edit", "View", "Themes", "Share", "Settings", "Help"]);
    assert_eq!(m[0].entries.len(), 5);
    match &m[0].entries[0] {
        MenuEntry::Item(it) => {
            assert_eq!(it.id, "open_folder");
            assert_eq!(it.label, "Open Folder...");
            assert_eq!(it.accelerator, None);
        }
        MenuEntry::Separator => panic!("first File entry is an item"),
    }
    assert!(matches!(m[0].entries[1], MenuEntry::Separator));
    assert_eq!(m[1].entries.len(), 7);
    assert!(matches!(m[1].entries[2], MenuEntry::Separator));
    match &m[5].entries[0] {
        MenuEntry::Item(it) => {
            assert_eq!(it.id, "open_settings");
            assert_eq!(it.accelerator, Some("CmdOrCtrl+,".to_string()));
        }
        MenuEntry::Separator => panic!("first Settings entry is an item"),
    }
    match &m[2].entries[0] {
        MenuEntry::Item(it) => {
            assert_eq!(it.id, "toggle_preview");
            assert_eq!(it.label, "Toggle Output");
            assert_eq!(it.accelerator, Some("CmdOrCtrl+Shift+P".to_string()));
        }
        MenuEntry::Separator => panic!("View entry is an item"),
    }
    // every selectable id routes to an event
    for sub in &m {
        for entry in &sub.entries {
            if let MenuEntry::Item(it) = entry {
                assert!(menu_event_for(&it.id).is_some(), "{} routes nowhere", it.id);
            }
        }
    }
}

#[test]
fn toast_carries_body_and_info_type() {
    let e = toast_event("Saved", "Document saved");
    assert_eq!(e.name, "SHOW_TOAST");
    match e.payload {
        EventPayload::Toast { message, kind } => {
            assert_eq!(message, "Document saved");
            assert_eq!(kind, "info");
        }
        _ => panic!("expected a toast payload"),
    }
    // the title takes no part in the event
    let a = toast_event("one title", "body");
    let b = toast_event("another title", "body");
    assert_eq!(a.name, b.name);
    match (a.payload, b.payload) {
        (
            EventPayload::Toast { message: ma, kind: ka },
            EventPayload::Toast { message: mb, kind: kb },
        ) => {
            assert_eq!(ma, mb);
            assert_eq!(ka, kb);
        }
        _ => panic!("expected toast payloads"),
    }
}
