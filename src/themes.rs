//! Named colour palettes: each maps the semantic colour roles to colours,
//! and widget types to the role they are drawn in by default.
use vstd::prelude::*;

use crate::text::str_eq;
use crate::widgets::{kind_of, WidgetKind};

verus! {

/// Names of the built-in themes, in listing order.
pub open spec fn theme_names() -> Seq<&'static str> {
    seq!["default", "solarized", "nord", "dracula", "gruvbox", "monokai", "light", "high-contrast", "one-dark", "tokyo-night", "catppuccin"]
}

/// The colour roles every theme defines, in palette order.
pub open spec fn role_names() -> Seq<&'static str> {
    seq!["model", "context_ok", "context_warn", "context_critical", "git_branch", "git_clean", "git_dirty", "cost", "duration", "separator_fg"]
}

/// Position of a colour role in a palette.
pub open spec fn role_index(role: Seq<char>) -> Option<int> {
    if role == "model"@ {
        Some(0)
    } else if role == "context_ok"@ {
        Some(1)
    } else if role == "context_warn"@ {
        Some(2)
    } else if role == "context_critical"@ {
        Some(3)
    } else if role == "git_branch"@ {
        Some(4)
    } else if role == "git_clean"@ {
        Some(5)
    } else if role == "git_dirty"@ {
        Some(6)
    } else if role == "cost"@ {
        Some(7)
    } else if role == "duration"@ {
        Some(8)
    } else if role == "separator_fg"@ {
        Some(9)
    } else {
        None
    }
}

/// Position of a theme in the listing; unknown names select `default`.
pub open spec fn theme_index(name: Seq<char>) -> int {
    if name == "default"@ {
        0
    } else if name == "solarized"@ {
        1
    } else if name == "nord"@ {
        2
    } else if name == "dracula"@ {
        3
    } else if name == "gruvbox"@ {
        4
    } else if name == "monokai"@ {
        5
    } else if name == "light"@ {
        6
    } else if name == "high-contrast"@ {
        7
    } else if name == "one-dark"@ {
        8
    } else if name == "tokyo-night"@ {
        9
    } else if name == "catppuccin"@ {
        10
    } else {
        0
    }
}

/// The colours of theme `i`, one per role.
pub open spec fn palette(i: int) -> Seq<&'static str> {
    if i == 0 {
        seq!["cyan", "green", "yellow", "red", "magenta", "green", "red", "yellow", "blue", "brightBlack"]
    } else if i == 1 {
        seq!["#268bd2", "#859900", "#b58900", "#dc322f", "#6c71c4", "#859900", "#cb4b16", "#b58900", "#2aa198", "#586e75"]
    } else if i == 2 {
        seq!["#88c0d0", "#a3be8c", "#ebcb8b", "#bf616a", "#b48ead", "#a3be8c", "#d08770", "#ebcb8b", "#81a1c1", "#4c566a"]
    } else if i == 3 {
        seq!["#8be9fd", "#50fa7b", "#f1fa8c", "#ff5555", "#bd93f9", "#50fa7b", "#ffb86c", "#f1fa8c", "#ff79c6", "#6272a4"]
    } else if i == 4 {
        seq!["#83a598", "#b8bb26", "#fabd2f", "#fb4934", "#d3869b", "#b8bb26", "#fe8019", "#fabd2f", "#8ec07c", "#928374"]
    } else if i == 5 {
        seq!["#66d9ef", "#a6e22e", "#e6db74", "#f92672", "#ae81ff", "#a6e22e", "#fd971f", "#e6db74", "#66d9ef", "#75715e"]
    } else if i == 6 {
        seq!["#005f87", "#008700", "#af8700", "#d70000", "#870087", "#008700", "#d75f00", "#af8700", "#0087af", "#808080"]
    } else if i == 7 {
        seq!["brightCyan", "brightGreen", "brightYellow", "brightRed", "brightMagenta", "brightGreen", "brightRed", "brightYellow", "brightBlue", "white"]
    } else if i == 8 {
        seq!["#61afef", "#98c379", "#e5c07b", "#e06c75", "#c678dd", "#98c379", "#d19a66", "#e5c07b", "#56b6c2", "#5c6370"]
    } else if i == 9 {
        seq!["#7aa2f7", "#9ece6a", "#e0af68", "#f7768e", "#bb9af7", "#9ece6a", "#ff9e64", "#e0af68", "#7dcfff", "#565f89"]
    } else {
        seq!["#89b4fa", "#a6e3a1", "#f9e2af", "#f38ba8", "#cba6f7", "#a6e3a1", "#fab387", "#f9e2af", "#94e2d5", "#6c7086"]
    }
}

/// The role a widget kind is drawn in when nothing else sets its colour.
pub open spec fn kind_role(k: WidgetKind) -> Option<Seq<char>> {
    match k {
        WidgetKind::Model => Some("model"@),
        WidgetKind::ContextPercentage => Some("context_ok"@),
        WidgetKind::ContextLength => Some("context_ok"@),
        WidgetKind::TokensInput => Some("model"@),
        WidgetKind::TokensOutput => Some("model"@),
        WidgetKind::TokensCached => Some("model"@),
        WidgetKind::TokensTotal => Some("model"@),
        WidgetKind::SessionCost => Some("cost"@),
        WidgetKind::SessionDuration => Some("duration"@),
        WidgetKind::BlockTimer => Some("duration"@),
        WidgetKind::GitBranch => Some("git_branch"@),
        WidgetKind::GitStatus => Some("git_clean"@),
        WidgetKind::GitWorktree => Some("git_branch"@),
        WidgetKind::Cwd => Some("git_branch"@),
        WidgetKind::LinesChanged => Some("git_dirty"@),
        WidgetKind::Version => Some("separator_fg"@),
        WidgetKind::SessionId => Some("separator_fg"@),
        WidgetKind::VimMode => Some("model"@),
        WidgetKind::AgentName => Some("model"@),
        WidgetKind::OutputStyle => Some("separator_fg"@),
        WidgetKind::ExceedsTokens => Some("context_critical"@),
        WidgetKind::ApiDuration => Some("duration"@),
        WidgetKind::TerminalWidth => Some("separator_fg"@),
        WidgetKind::Separator => Some("separator_fg"@),
        WidgetKind::FlexSeparator => Some("separator_fg"@),
        WidgetKind::CustomText | WidgetKind::CustomCommand => None,
    }
}


/// The colour a theme gives `role`.
pub open spec fn theme_color(t: Theme, role: Seq<char>) -> Option<Seq<char>> {
    match role_index(role) {
        Some(i) => if i < t.colors@.len() {
            Some(t.colors@[i]@)
        } else {
            None
        },
        None => None,
    }
}

/// One palette.
#[derive(Clone, Debug)]
pub struct Theme {
    pub name: &'static str,
    /// One colour per role, in the order of `role_names`.
    pub colors: Vec<&'static str>,
}


fn palette_of(i: usize) -> (r: Vec<&'static str>)
    requires
        i < 11,
    ensures
        r@ == palette(i as int),
{
    if i == 0 {
        vec!["cyan", "green", "yellow", "red", "magenta", "green", "red", "yellow", "blue", "brightBlack"]
    } else if i == 1 {
        vec!["#268bd2", "#859900", "#b58900", "#dc322f", "#6c71c4", "#859900", "#cb4b16", "#b58900", "#2aa198", "#586e75"]
    } else if i == 2 {
        vec!["#88c0d0", "#a3be8c", "#ebcb8b", "#bf616a", "#b48ead", "#a3be8c", "#d08770", "#ebcb8b", "#81a1c1", "#4c566a"]
    } else if i == 3 {
        vec!["#8be9fd", "#50fa7b", "#f1fa8c", "#ff5555", "#bd93f9", "#50fa7b", "#ffb86c", "#f1fa8c", "#ff79c6", "#6272a4"]
    } else if i == 4 {
        vec!["#83a598", "#b8bb26", "#fabd2f", "#fb4934", "#d3869b", "#b8bb26", "#fe8019", "#fabd2f", "#8ec07c", "#928374"]
    } else if i == 5 {
        vec!["#66d9ef", "#a6e22e", "#e6db74", "#f92672", "#ae81ff", "#a6e22e", "#fd971f", "#e6db74", "#66d9ef", "#75715e"]
    } else if i == 6 {
        vec!["#005f87", "#008700", "#af8700", "#d70000", "#870087", "#008700", "#d75f00", "#af8700", "#0087af", "#808080"]
    } else if i == 7 {
        vec!["brightCyan", "brightGreen", "brightYellow", "brightRed", "brightMagenta", "brightGreen", "brightRed", "brightYellow", "brightBlue", "white"]
    } else if i == 8 {
        vec!["#61afef", "#98c379", "#e5c07b", "#e06c75", "#c678dd", "#98c379", "#d19a66", "#e5c07b", "#56b6c2", "#5c6370"]
    } else if i == 9 {
        vec!["#7aa2f7", "#9ece6a", "#e0af68", "#f7768e", "#bb9af7", "#9ece6a", "#ff9e64", "#e0af68", "#7dcfff", "#565f89"]
    } else {
        vec!["#89b4fa", "#a6e3a1", "#f9e2af", "#f38ba8", "#cba6f7", "#a6e3a1", "#fab387", "#f9e2af", "#94e2d5", "#6c7086"]
    }
}


fn role_position(role: &str) -> (r: Option<usize>)
    ensures
        r matches Some(i) ==> role_index(role@) == Some(i as int),
        r is None ==> role_index(role@) is None,
{
    if str_eq(role, "model") {
        Some(0)
    } else if str_eq(role, "context_ok") {
        Some(1)
    } else if str_eq(role, "context_warn") {
        Some(2)
    } else if str_eq(role, "context_critical") {
        Some(3)
    } else if str_eq(role, "git_branch") {
        Some(4)
    } else if str_eq(role, "git_clean") {
        Some(5)
    } else if str_eq(role, "git_dirty") {
        Some(6)
    } else if str_eq(role, "cost") {
        Some(7)
    } else if str_eq(role, "duration") {
        Some(8)
    } else if str_eq(role, "separator_fg") {
        Some(9)
    } else {
        None
    }
}


fn theme_position(name: &str) -> (r: usize)
    ensures
        r as int == theme_index(name@),
{
    if str_eq(name, "default") {
        0
    } else if str_eq(name, "solarized") {
        1
    } else if str_eq(name, "nord") {
        2
    } else if str_eq(name, "dracula") {
        3
    } else if str_eq(name, "gruvbox") {
        4
    } else if str_eq(name, "monokai") {
        5
    } else if str_eq(name, "light") {
        6
    } else if str_eq(name, "high-contrast") {
        7
    } else if str_eq(name, "one-dark") {
        8
    } else if str_eq(name, "tokyo-night") {
        9
    } else if str_eq(name, "catppuccin") {
        10
    } else {
        0
    }
}


impl Theme {
    /// Names of all built-in themes.
    pub fn list() -> (r: Vec<&'static str>)
        ensures
            r@ == theme_names(),
    {
        vec!["default", "solarized", "nord", "dracula", "gruvbox", "monokai", "light", "high-contrast", "one-dark", "tokyo-night", "catppuccin"]
    }

    /// The theme called `name`; `default` when there is none.
    pub fn get(name: &str) -> (r: Theme)
        ensures
            r.name == theme_names()[theme_index(name@)],
            r.colors@ == palette(theme_index(name@)),
    {
        let i = theme_position(name);
        let names = Theme::list();
        Theme { name: names[i], colors: palette_of(i) }
    }

    /// The colour this theme gives `role`; `None` for a role outside the
    /// fixed set.
    pub fn color(&self, role: &str) -> (r: Option<String>)
        ensures
            r.deep_view() == theme_color(*self, role@),
    {
        match role_position(role) {
            Some(i) => if i < self.colors.len() {
                Some(String::from_str(self.colors[i]))
            } else {
                None
            },
            None => None,
        }
    }

    /// The role a widget type is drawn in by default; `None` for types with
    /// no semantic colour and for unknown types.
    pub fn role_for_widget(&self, widget_type: &str) -> (r: Option<String>)
        ensures
            r.deep_view() == (match kind_of(widget_type@) {
                Some(k) => kind_role(k),
                None => None,
            }),
    {
        match WidgetKind::from_name(widget_type) {
            Some(k) => match k {
                WidgetKind::Model => Some(String::from_str("model")),
                WidgetKind::ContextPercentage => Some(String::from_str("context_ok")),
                WidgetKind::ContextLength => Some(String::from_str("context_ok")),
                WidgetKind::TokensInput => Some(String::from_str("model")),
                WidgetKind::TokensOutput => Some(String::from_str("model")),
                WidgetKind::TokensCached => Some(String::from_str("model")),
                WidgetKind::TokensTotal => Some(String::from_str("model")),
                WidgetKind::SessionCost => Some(String::from_str("cost")),
                WidgetKind::SessionDuration => Some(String::from_str("duration")),
                WidgetKind::BlockTimer => Some(String::from_str("duration")),
                WidgetKind::GitBranch => Some(String::from_str("git_branch")),
                WidgetKind::GitStatus => Some(String::from_str("git_clean")),
                WidgetKind::GitWorktree => Some(String::from_str("git_branch")),
                WidgetKind::Cwd => Some(String::from_str("git_branch")),
                WidgetKind::LinesChanged => Some(String::from_str("git_dirty")),
                WidgetKind::Version => Some(String::from_str("separator_fg")),
                WidgetKind::SessionId => Some(String::from_str("separator_fg")),
                WidgetKind::VimMode => Some(String::from_str("model")),
                WidgetKind::AgentName => Some(String::from_str("model")),
                WidgetKind::OutputStyle => Some(String::from_str("separator_fg")),
                WidgetKind::ExceedsTokens => Some(String::from_str("context_critical")),
                WidgetKind::ApiDuration => Some(String::from_str("duration")),
                WidgetKind::TerminalWidth => Some(String::from_str("separator_fg")),
                WidgetKind::Separator => Some(String::from_str("separator_fg")),
                WidgetKind::FlexSeparator => Some(String::from_str("separator_fg")),
                WidgetKind::CustomText | WidgetKind::CustomCommand => None,
            },
            None => None,
        }
    }
}

/// There are eleven built-in themes, and each gives a colour to every
/// required role: whatever theme is selected, `color` of a required role
/// is `Some`.
pub proof fn lemma_themes_cover_roles(name: Seq<char>, j: int)
    requires
        0 <= j < 10,
    ensures
        theme_names().len() == 11,
        role_index(role_names()[j]@) == Some(j),
        palette(theme_index(name)).len() == 10,
{
    reveal_strlit("model");
    reveal_strlit("context_ok");
    reveal_strlit("context_warn");
    reveal_strlit("context_critical");
    reveal_strlit("git_branch");
    reveal_strlit("git_clean");
    reveal_strlit("git_dirty");
    reveal_strlit("cost");
    reveal_strlit("duration");
    reveal_strlit("separator_fg");
    if j == 0 {
        assert(role_names()[0]@ == "model"@);
        assert(role_index("model"@) == Some(0int));
    }
    if j == 1 {
        assert(role_names()[1]@ == "context_ok"@);
        assert(role_index("context_ok"@) == Some(1int));
    }
    if j == 2 {
        assert(role_names()[2]@ == "context_warn"@);
        assert(role_index("context_warn"@) == Some(2int));
    }
    if j == 3 {
        assert(role_names()[3]@ == "context_critical"@);
        assert(role_index("context_critical"@) == Some(3int));
    }
    if j == 4 {
        assert(role_names()[4]@ == "git_branch"@);
        assert("git_branch"@[0] != "context_ok"@[0]);
        assert(role_index("git_branch"@) == Some(4int));
    }
    if j == 5 {
        assert(role_names()[5]@ == "git_clean"@);
        assert(role_index("git_clean"@) == Some(5int));
    }
    if j == 6 {
        assert(role_names()[6]@ == "git_dirty"@);
        assert("git_dirty"@[4] != "git_clean"@[4]);
        assert(role_index("git_dirty"@) == Some(6int));
    }
    if j == 7 {
        assert(role_names()[7]@ == "cost"@);
        assert(role_index("cost"@) == Some(7int));
    }
    if j == 8 {
        assert(role_names()[8]@ == "duration"@);
        assert(role_index("duration"@) == Some(8int));
    }
    if j == 9 {
        assert(role_names()[9]@ == "separator_fg"@);
        assert("separator_fg"@[0] != "context_warn"@[0]);
        assert(role_index("separator_fg"@) == Some(9int));
    }
}

} // verus!
