//! Process-lifetime session state shared by the UI commands, and the
//! snapshot of it that the UI may see.

use vstd::prelude::*;

verus! {

/// The five fields of the session: the open document, the editor theme,
/// the raw-HTML toggle, the workspace root, and the GitHub credential.
pub struct AppState {
    pub content: String,
    pub theme: String,
    pub allow_html: bool,
    pub workspace_path: Option<String>,
    pub github_token: String,
}

/// What `get_globals` hands to the UI. There is no field for the GitHub
/// token: the snapshot cannot carry it.
pub struct Globals {
    pub content: String,
    pub theme: String,
    pub allow_html: bool,
    pub workspace_path: Option<String>,
}

/// The snapshot that `get_globals` takes of a given state.
pub open spec fn globals_of(s: AppState) -> Globals {
    Globals {
        content: s.content,
        theme: s.theme,
        allow_html: s.allow_html,
        workspace_path: s.workspace_path,
    }
}

/// `s` with its document content replaced.
pub open spec fn with_content(s: AppState, content: String) -> AppState {
    AppState {
        content,
        theme: s.theme,
        allow_html: s.allow_html,
        workspace_path: s.workspace_path,
        github_token: s.github_token,
    }
}

/// `s` with its theme replaced.
pub open spec fn with_theme(s: AppState, theme: String) -> AppState {
    AppState {
        content: s.content,
        theme,
        allow_html: s.allow_html,
        workspace_path: s.workspace_path,
        github_token: s.github_token,
    }
}

/// `s` with its raw-HTML toggle replaced.
pub open spec fn with_allow_html(s: AppState, allow: bool) -> AppState {
    AppState {
        content: s.content,
        theme: s.theme,
        allow_html: allow,
        workspace_path: s.workspace_path,
        github_token: s.github_token,
    }
}

/// `s` with its workspace root set to a present value.
pub open spec fn with_workspace_path(s: AppState, path: String) -> AppState {
    AppState {
        content: s.content,
        theme: s.theme,
        allow_html: s.allow_html,
        workspace_path: Some(path),
        github_token: s.github_token,
    }
}

/// `s` with its GitHub token replaced.
pub open spec fn with_github_token(s: AppState, token: String) -> AppState {
    AppState {
        content: s.content,
        theme: s.theme,
        allow_html: s.allow_html,
        workspace_path: s.workspace_path,
        github_token: token,
    }
}

impl AppState {
    /// The state at process start: empty document, theme `yonce`, raw HTML
    /// off, no workspace, empty token.
    pub fn new() -> (s: Self)
        ensures
            s.content@ == Seq::<char>::empty(),
            s.theme@ == "yonce"@,
            !s.allow_html,
            s.workspace_path is None,
            s.github_token@ == Seq::<char>::empty(),
    {
        AppState {
            content: String::new(),
            theme: "yonce".to_owned(),
            allow_html: false,
            workspace_path: None,
            github_token: String::new(),
        }
    }

    /// A snapshot of everything but the GitHub token.
    pub fn get_globals(&self) -> (g: Globals)
        ensures
            g == globals_of(*self),
    {
        Globals {
            content: self.content.clone(),
            theme: self.theme.clone(),
            allow_html: self.allow_html,
            workspace_path: match &self.workspace_path {
                Some(p) => Some(p.clone()),
                None => None,
            },
        }
    }

    /// Replaces the document content; every other field is kept.
    pub fn save_content_in_store(&mut self, content: String)
        ensures
            *final(self) == with_content(*old(self), content),
    {
        self.content = content;
    }

    /// Replaces the theme; every other field is kept.
    pub fn set_theme(&mut self, theme: String)
        ensures
            *final(self) == with_theme(*old(self), theme),
    {
        self.theme = theme;
    }

    /// Replaces the raw-HTML toggle; every other field is kept.
    pub fn set_allow_html(&mut self, allow: bool)
        ensures
            *final(self) == with_allow_html(*old(self), allow),
    {
        self.allow_html = allow;
    }

    /// Sets the workspace root to a present value; there is no way to
    /// clear it again. Every other field is kept.
    pub fn set_workspace_path(&mut self, path: String)
        ensures
            *final(self) == with_workspace_path(*old(self), path),
    {
        self.workspace_path = Some(path);
    }

    /// The stored GitHub token, as it is.
    pub fn get_github_token(&self) -> (t: String)
        ensures
            t == self.github_token,
    {
        self.github_token.clone()
    }

    /// Replaces the GitHub token; always succeeds with `Ok(true)`.
    /// Every other field is kept.
    pub fn set_github_token(&mut self, token: String) -> (r: Result<bool, String>)
        ensures
            *final(self) == with_github_token(*old(self), token),
            r matches Ok(true),
    {
        self.github_token = token;
        Ok(true)
    }
}

/// Setting a field and then taking a snapshot shows exactly that field's
/// new value; the other visible fields are those of the old snapshot.
pub proof fn lemma_snapshot_after_setters(s: AppState, text: String, flag: bool, path: String)
    ensures
        globals_of(with_content(s, text)) == (Globals { content: text, ..globals_of(s) }),
        globals_of(with_theme(s, text)) == (Globals { theme: text, ..globals_of(s) }),
        globals_of(with_allow_html(s, flag)) == (Globals { allow_html: flag, ..globals_of(s) }),
        globals_of(with_workspace_path(s, path)) == (Globals {
            workspace_path: Some(path),
            ..globals_of(s)
        }),
{
}

/// The snapshot never depends on the GitHub token: states that differ only
/// in the token have the same snapshot.
pub proof fn lemma_snapshot_hides_token(s: AppState, token: String)
    ensures
        globals_of(with_github_token(s, token)) == globals_of(s),
{
}

} // verus!
