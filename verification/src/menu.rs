//! The application menu tree and the routing of menu selections to the
//! events the UI receives, together with the toast event of the
//! notification command.

use vstd::prelude::*;

verus! {

/// The payload carried by an event to the UI.
pub enum EventPayload {
    /// No payload.
    Empty,
    /// A bare string: a theme identifier or a URL.
    Text(String),
    /// The gist-publishing payload, `{ "secret": ... }`.
    Gist { secret: bool },
    /// The toast payload, `{ "message": ..., "type": ... }`.
    Toast { message: String, kind: String },
}

/// One event emitted toward the UI window.
pub struct UiEvent {
    pub name: String,
    pub payload: EventPayload,
}

/// `r` is the event `name` with no payload.
pub open spec fn is_plain_event(r: Option<UiEvent>, name: Seq<char>) -> bool {
    r matches Some(e) && e.name@ == name && e.payload is Empty
}

/// `r` is the event `name` carrying the string `text`.
pub open spec fn is_text_event(r: Option<UiEvent>, name: Seq<char>, text: Seq<char>) -> bool {
    r matches Some(e) && e.name@ == name && (e.payload matches EventPayload::Text(t) && t@
        == text)
}

/// `r` is the gist-publishing event with the given secrecy.
pub open spec fn is_gist_event(r: Option<UiEvent>, secret: bool) -> bool {
    r matches Some(e) && e.name@ == "PUBLISH_GIST"@ && (e.payload matches EventPayload::Gist {
        secret: s,
    } && s == secret)
}

/// The routing table: the event the UI receives for each menu item id,
/// and `None` for an id that is not in the table.
pub open spec fn menu_event_spec(id: Seq<char>, r: Option<UiEvent>) -> bool {
    if id == "open_folder"@ {
        is_plain_event(r, "OPEN_WORKSPACE_FOLDER"@)
    } else if id == "export_html"@ {
        is_plain_event(r, "EXPORT_TO_HTML"@)
    } else if id == "export_pdf"@ {
        is_plain_event(r, "DO_EXPORT_PDF"@)
    } else if id == "export_png"@ {
        is_plain_event(r, "DO_EXPORT_PNG"@)
    } else if id == "toggle_preview"@ {
        is_plain_event(r, "TOGGLE_PREVIEW"@)
    } else if id == "open_settings"@ {
        is_plain_event(r, "OPEN_SETTINGS"@)
    } else if id == "toggle_toc"@ {
        is_plain_event(r, "TOGGLE_TOC"@)
    } else if id == "theme_yonce"@ {
        is_text_event(r, "SET_THEME"@, "yonce"@)
    } else if id == "theme_ayu_dark"@ {
        is_text_event(r, "SET_THEME"@, "ayu-dark"@)
    } else if id == "theme_darcula"@ {
        is_text_event(r, "SET_THEME"@, "darcula"@)
    } else if id == "theme_material"@ {
        is_text_event(r, "SET_THEME"@, "material"@)
    } else if id == "theme_monokai"@ {
        is_text_event(r, "SET_THEME"@, "monokai"@)
    } else if id == "gist_public"@ {
        is_gist_event(r, false)
    } else if id == "gist_secret"@ {
        is_gist_event(r, true)
    } else if id == "welcome"@ {
        is_text_event(r, "OPEN_URL"@, "https://saketh-kowtha.github.io/markit/"@)
    } else if id == "release_notes"@ {
        is_text_event(r, "OPEN_URL"@, "https://github.com/saketh-kowtha/markit/releases"@)
    } else if id == "report_issue"@ {
        is_text_event(r, "OPEN_URL"@, "https://github.com/saketh-kowtha/markit/issues"@)
    } else if id == "follow_twitter"@ {
        is_text_event(r, "OPEN_URL"@, "https://twitter.com/saketh_kowtha"@)
    } else if id == "edit_undo"@ {
        is_plain_event(r, "EDIT_UNDO"@)
    } else if id == "edit_redo"@ {
        is_plain_event(r, "EDIT_REDO"@)
    } else if id == "edit_cut"@ {
        is_plain_event(r, "EDIT_CUT"@)
    } else if id == "edit_copy"@ {
        is_plain_event(r, "EDIT_COPY"@)
    } else if id == "edit_paste"@ {
        is_plain_event(r, "EDIT_PASTE"@)
    } else if id == "edit_select_all"@ {
        is_plain_event(r, "EDIT_SELECT_ALL"@)
    } else {
        r is None
    }
}

/// Whether two string slices hold the same characters.
fn str_eq(a: &str, b: &str) -> (r: bool)
    ensures
        r == (a@ == b@),
{
    let sa: String = a.to_owned();
    let sb: String = b.to_owned();
    sa == sb
}

/// An event with no payload.
fn plain_event(name: &str) -> (r: Option<UiEvent>)
    ensures
        is_plain_event(r, name@),
{
    Some(UiEvent { name: name.to_owned(), payload: EventPayload::Empty })
}

/// An event carrying a bare string.
fn text_event(name: &str, text: &str) -> (r: Option<UiEvent>)
    ensures
        is_text_event(r, name@, text@),
{
    Some(UiEvent { name: name.to_owned(), payload: EventPayload::Text(text.to_owned()) })
}

/// The gist-publishing event.
fn gist_event(secret: bool) -> (r: Option<UiEvent>)
    ensures
        is_gist_event(r, secret),
{
    Some(UiEvent { name: "PUBLISH_GIST".to_owned(), payload: EventPayload::Gist { secret } })
}

/// The event to emit for a selected menu item, per the routing table;
/// `None` for an unknown id, whose selection is ignored.
pub fn menu_event_for(id: &str) -> (r: Option<UiEvent>)
    ensures
        menu_event_spec(id@, r),
{
    if str_eq(id, "open_folder") {
        plain_event("OPEN_WORKSPACE_FOLDER")
    } else if str_eq(id, "export_html") {
        plain_event("EXPORT_TO_HTML")
    } else if str_eq(id, "export_pdf") {
        plain_event("DO_EXPORT_PDF")
    } else if str_eq(id, "export_png") {
        plain_event("DO_EXPORT_PNG")
    } else if str_eq(id, "toggle_preview") {
        plain_event("TOGGLE_PREVIEW")
    } else if str_eq(id, "open_settings") {
        plain_event("OPEN_SETTINGS")
    } else if str_eq(id, "toggle_toc") {
        plain_event("TOGGLE_TOC")
    } else if str_eq(id, "theme_yonce") {
        text_event("SET_THEME", "yonce")
    } else if str_eq(id, "theme_ayu_dark") {
        text_event("SET_THEME", "ayu-dark")
    } else if str_eq(id, "theme_darcula") {
        text_event("SET_THEME", "darcula")
    } else if str_eq(id, "theme_material") {
        text_event("SET_THEME", "material")
    } else if str_eq(id, "theme_monokai") {
        text_event("SET_THEME", "monokai")
    } else if str_eq(id, "gist_public") {
        gist_event(false)
    } else if str_eq(id, "gist_secret") {
        gist_event(true)
    } else if str_eq(id, "welcome") {
        text_event("OPEN_URL", "https://saketh-kowtha.github.io/markit/")
    } else if str_eq(id, "release_notes") {
        text_event("OPEN_URL", "https://github.com/saketh-kowtha/markit/releases")
    } else if str_eq(id, "report_issue") {
        text_event("OPEN_URL", "https://github.com/saketh-kowtha/markit/issues")
    } else if str_eq(id, "follow_twitter") {
        text_event("OPEN_URL", "https://twitter.com/saketh_kowtha")
    } else if str_eq(id, "edit_undo") {
        plain_event("EDIT_UNDO")
    } else if str_eq(id, "edit_redo") {
        plain_event("EDIT_REDO")
    } else if str_eq(id, "edit_cut") {
        plain_event("EDIT_CUT")
    } else if str_eq(id, "edit_copy") {
        plain_event("EDIT_COPY")
    } else if str_eq(id, "edit_paste") {
        plain_event("EDIT_PASTE")
    } else if str_eq(id, "edit_select_all") {
        plain_event("EDIT_SELECT_ALL")
    } else {
        None
    }
}

/// The toast event of the notification command: the body becomes the
/// message and the type is always `info`. The title is accepted but sent
/// nowhere, as the UI expects.
pub fn toast_event(_title: &str, body: &str) -> (e: UiEvent)
    ensures
        e.name@ == "SHOW_TOAST"@,
        (e.payload matches EventPayload::Toast { message, kind } && message@ == body@ && kind@
            == "info"@),
{
    UiEvent {
        name: "SHOW_TOAST".to_owned(),
        payload: EventPayload::Toast { message: body.to_owned(), kind: "info".to_owned() },
    }
}

/// One selectable menu leaf: its stable id, its visible label, and an
/// optional keyboard accelerator.
pub struct MenuItemModel {
    pub id: String,
    pub label: String,
    pub accelerator: Option<String>,
}

/// One slot of a submenu: a selectable item or a separator line.
pub enum MenuEntry {
    Item(MenuItemModel),
    Separator,
}

/// One top-level submenu: its title and its entries in order.
pub struct SubmenuModel {
    pub title: String,
    pub entries: Vec<MenuEntry>,
}

/// `e` is the item `id` labelled `label`, with no accelerator.
pub open spec fn is_item(e: MenuEntry, id: Seq<char>, label: Seq<char>) -> bool {
    e matches MenuEntry::Item(it) && it.id@ == id && it.label@ == label && it.accelerator is None
}

/// `e` is the item `id` labelled `label`, with the accelerator `accel`.
pub open spec fn is_accel_item(
    e: MenuEntry,
    id: Seq<char>,
    label: Seq<char>,
    accel: Seq<char>,
) -> bool {
    e matches MenuEntry::Item(it) && it.id@ == id && it.label@ == label && (it.accelerator matches
    Some(a) && a@ == accel)
}

/// The File submenu: open folder, a separator, and the three exports.
pub open spec fn is_file_menu(m: SubmenuModel) -> bool {
    m.title@ == "File"@ && m.entries@.len() == 5 && is_item(
        m.entries@[0],
        "open_folder"@,
        "Open Folder..."@,
    ) && m.entries@[1] is Separator && is_item(m.entries@[2], "export_html"@, "Export as HTML"@)
        && is_item(m.entries@[3], "export_pdf"@, "Export as PDF"@) && is_item(
        m.entries@[4],
        "export_png"@,
        "Export as PNG"@,
    )
}

/// The Edit submenu: undo and redo, a separator, then the clipboard
/// items and select-all, all forwarded to the UI editor.
pub open spec fn is_edit_menu(m: SubmenuModel) -> bool {
    m.title@ == "Edit"@ && m.entries@.len() == 7 && is_item(m.entries@[0], "edit_undo"@, "Undo"@)
        && is_item(m.entries@[1], "edit_redo"@, "Redo"@) && m.entries@[2] is Separator && is_item(
        m.entries@[3],
        "edit_cut"@,
        "Cut"@,
    ) && is_item(m.entries@[4], "edit_copy"@, "Copy"@) && is_item(
        m.entries@[5],
        "edit_paste"@,
        "Paste"@,
    ) && is_item(m.entries@[6], "edit_select_all"@, "Select All"@)
}

/// The View submenu: the preview toggle alone.
pub open spec fn is_view_menu(m: SubmenuModel) -> bool {
    m.title@ == "View"@ && m.entries@.len() == 1 && is_accel_item(
        m.entries@[0],
        "toggle_preview"@,
        "Toggle Output"@,
        "CmdOrCtrl+Shift+P"@,
    )
}

/// The Themes submenu: the five theme choices.
pub open spec fn is_themes_menu(m: SubmenuModel) -> bool {
    m.title@ == "Themes"@ && m.entries@.len() == 5 && is_item(
        m.entries@[0],
        "theme_yonce"@,
        "Yonce"@,
    ) && is_item(m.entries@[1], "theme_ayu_dark"@, "Ayu Dark"@) && is_item(
        m.entries@[2],
        "theme_darcula"@,
        "Darcula"@,
    ) && is_item(m.entries@[3], "theme_material"@, "Material"@) && is_item(
        m.entries@[4],
        "theme_monokai"@,
        "Monokai"@,
    )
}

/// The Share submenu: public and secret gist publishing.
pub open spec fn is_share_menu(m: SubmenuModel) -> bool {
    m.title@ == "Share"@ && m.entries@.len() == 2 && is_item(
        m.entries@[0],
        "gist_public"@,
        "Publish Gist (Public)"@,
    ) && is_item(m.entries@[1], "gist_secret"@, "Publish Gist (Secret)"@)
}

/// The Settings submenu: preferences and the table-of-contents toggle.
pub open spec fn is_settings_menu(m: SubmenuModel) -> bool {
    m.title@ == "Settings"@ && m.entries@.len() == 2 && is_accel_item(
        m.entries@[0],
        "open_settings"@,
        "Preferences..."@,
        "CmdOrCtrl+,"@,
    ) && is_accel_item(m.entries@[1], "toggle_toc"@, "Toggle Table of Contents"@, "CmdOrCtrl+T"@)
}

/// The Help submenu: the welcome and release pages, a separator, the
/// issue tracker and the Twitter page.
pub open spec fn is_help_menu(m: SubmenuModel) -> bool {
    m.title@ == "Help"@ && m.entries@.len() == 5 && is_item(m.entries@[0], "welcome"@, "Welcome"@)
        && is_item(m.entries@[1], "release_notes"@, "Release Notes"@) && m.entries@[2] is Separator
        && is_item(m.entries@[3], "report_issue"@, "Report Issue"@) && is_item(
        m.entries@[4],
        "follow_twitter"@,
        "Follow in Twitter"@,
    )
}

/// A selectable entry with no accelerator.
fn item(id: &str, label: &str) -> (e: MenuEntry)
    ensures
        is_item(e, id@, label@),
{
    MenuEntry::Item(
        MenuItemModel { id: id.to_owned(), label: label.to_owned(), accelerator: None },
    )
}

/// A selectable entry with a keyboard accelerator.
fn accel_item(id: &str, label: &str, accel: &str) -> (e: MenuEntry)
    ensures
        is_accel_item(e, id@, label@, accel@),
{
    MenuEntry::Item(
        MenuItemModel {
            id: id.to_owned(),
            label: label.to_owned(),
            accelerator: Some(accel.to_owned()),
        },
    )
}

/// The application menu built at startup: its seven submenus in order.
pub fn app_menu() -> (m: Vec<SubmenuModel>)
    ensures
        m@.len() == 7,
        is_file_menu(m@[0]),
        is_edit_menu(m@[1]),
        is_view_menu(m@[2]),
        is_themes_menu(m@[3]),
        is_share_menu(m@[4]),
        is_settings_menu(m@[5]),
        is_help_menu(m@[6]),
{
    let mut file_entries: Vec<MenuEntry> = Vec::new();
    file_entries.push(item("open_folder", "Open Folder..."));
    file_entries.push(MenuEntry::Separator);
    file_entries.push(item("export_html", "Export as HTML"));
    file_entries.push(item("export_pdf", "Export as PDF"));
    file_entries.push(item("export_png", "Export as PNG"));
    let file_menu = SubmenuModel { title: "File".to_owned(), entries: file_entries };

    let mut edit_entries: Vec<MenuEntry> = Vec::new();
    edit_entries.push(item("edit_undo", "Undo"));
    edit_entries.push(item("edit_redo", "Redo"));
    edit_entries.push(MenuEntry::Separator);
    edit_entries.push(item("edit_cut", "Cut"));
    edit_entries.push(item("edit_copy", "Copy"));
    edit_entries.push(item("edit_paste", "Paste"));
    edit_entries.push(item("edit_select_all", "Select All"));
    let edit_menu = SubmenuModel { title: "Edit".to_owned(), entries: edit_entries };

    let mut view_entries: Vec<MenuEntry> = Vec::new();
    view_entries.push(accel_item("toggle_preview", "Toggle Output", "CmdOrCtrl+Shift+P"));
    let view_menu = SubmenuModel { title: "View".to_owned(), entries: view_entries };

    let mut theme_entries: Vec<MenuEntry> = Vec::new();
    theme_entries.push(item("theme_yonce", "Yonce"));
    theme_entries.push(item("theme_ayu_dark", "Ayu Dark"));
    theme_entries.push(item("theme_darcula", "Darcula"));
    theme_entries.push(item("theme_material", "Material"));
    theme_entries.push(item("theme_monokai", "Monokai"));
    let themes_menu = SubmenuModel { title: "Themes".to_owned(), entries: theme_entries };

    let mut share_entries: Vec<MenuEntry> = Vec::new();
    share_entries.push(item("gist_public", "Publish Gist (Public)"));
    share_entries.push(item("gist_secret", "Publish Gist (Secret)"));
    let share_menu = SubmenuModel { title: "Share".to_owned(), entries: share_entries };

    let mut settings_entries: Vec<MenuEntry> = Vec::new();
    settings_entries.push(accel_item("open_settings", "Preferences...", "CmdOrCtrl+,"));
    settings_entries.push(accel_item("toggle_toc", "Toggle Table of Contents", "CmdOrCtrl+T"));
    let settings_menu = SubmenuModel { title: "Settings".to_owned(), entries: settings_entries };

    let mut help_entries: Vec<MenuEntry> = Vec::new();
    help_entries.push(item("welcome", "Welcome"));
    help_entries.push(item("release_notes", "Release Notes"));
    help_entries.push(MenuEntry::Separator);
    help_entries.push(item("report_issue", "Report Issue"));
    help_entries.push(item("follow_twitter", "Follow in Twitter"));
    let help_menu = SubmenuModel { title: "Help".to_owned(), entries: help_entries };

    let mut m: Vec<SubmenuModel> = Vec::new();
    m.push(file_menu);
    m.push(edit_menu);
    m.push(view_menu);
    m.push(themes_menu);
    m.push(share_menu);
    m.push(settings_menu);
    m.push(help_menu);
    m
}

} // verus!
