use markit::store::AppState;

#[test]
fn initial_globals() {
    let s = AppState::new();
    let g = s.get_globals();
    assert_eq!(g.content, "");
    assert_eq!(g.theme, "yonce");
    assert!(!g.allow_html);
    assert_eq!(g.workspace_path, None);
}

#[test]
fn theme_then_globals() {
    let mut s = AppState::new();
    s.set_theme("monokai".to_string());
    let g = s.get_globals();
    assert_eq!(g.content, "");
    assert_eq!(g.theme, "monokai");
    assert!(!g.allow_html);
    assert_eq!(g.workspace_path, None);
}

#[test]
fn each_setter_is_observed() {
    let mut s = AppState::new();
    s.save_content_in_store("# hi".to_string());
    assert_eq!(s.get_globals().content, "# hi");
    s.set_allow_html(true);
    assert!(s.get_globals().allow_html);
    s.set_workspace_path("/tmp/mk-test".to_string());
    assert_eq!(s.get_globals().workspace_path, Some("/tmp/mk-test".to_string()));
    s.set_theme("darcula".to_string());
    let g = s.get_globals();
    assert_eq!(g.content, "# hi");
    assert_eq!(g.theme, "darcula");
    assert!(g.allow_html);
    assert_eq!(g.workspace_path, Some("/tmp/mk-test".to_string()));
}

#[test]
fn token_round_trip_and_hidden() {
    let mut s = AppState::new();
    assert_eq!(s.get_github_token(), "");
    let before = s.get_globals();
    let r = s.set_github_token("example-token".to_string());
    assert_eq!(r, Ok(true));
    assert_eq!(s.get_github_token(), "example-token");
    let after = s.get_globals();
    assert_eq!(before.content, after.content);
    assert_eq!(before.theme, after.theme);
    assert_eq!(before.allow_html, after.allow_html);
    assert_eq!(before.workspace_path, after.workspace_path);
}

#[test]
fn any_input_is_stored_as_is() {
    let mut s = AppState::new();
    s.set_theme("".to_string());
    assert_eq!(s.get_globals().theme, "");
    s.save_content_in_store("héllo\n\0".to_string());
    assert_eq!(s.get_globals().content, "héllo\n\0");
}
