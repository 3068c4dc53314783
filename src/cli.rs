//! Subcommands of the command-line tool, the preset layouts it writes, and
//! theme selection. Reading arguments and writing files happen outside.
use vstd::prelude::*;
use vstd::string::*;

use crate::config::{is_default_powerline, plain_widget, Config, LineWidgetConfig, PowerlineConfig};
use crate::text::str_eq;
use crate::themes::{theme_names, Theme};

verus! {

/// What the tool is asked to do besides rendering.
#[derive(Clone, Debug)]
pub enum Commands {
    /// Launch the interactive configuration editor.
    Config,
    /// Write the default configuration file.
    Init,
    /// Check the environment.
    Doctor,
    /// Manage themes.
    Theme { action: ThemeAction },
    /// Apply a preset layout: minimal, full, powerline or compact.
    Preset { name: String },
    /// Print a sample of the expected input.
    DumpSchema,
}

/// Theme subcommands.
#[derive(Clone, Debug)]
pub enum ThemeAction {
    /// List the built-in themes.
    List,
    /// Make a theme the active one.
    Select { name: String },
}

/// Settings other than the lines are the defaults.
pub open spec fn default_settings(c: Config) -> bool {
    &&& c.theme@ == "default"@
    &&& c.color_level@ == "auto"@
    &&& c.default_padding@ == " "@
    &&& c.flex_mode@ == "full-minus-40"@
    &&& c.compact_threshold == 60
    &&& !c.global_bold
    &&& !c.inherit_separator_colors
    &&& c.default_separator@ == " | "@
}

/// `line` holds entries of exactly the types `types`, each with an empty
/// id and raw as `raw` says, without an explicit weight, padding, options
/// or merging.
pub open spec fn entries_are(line: Seq<LineWidgetConfig>, types: Seq<&str>, raw: bool) -> bool {
    &&& line.len() == types.len()
    &&& forall|i: int|
        0 <= i < line.len() ==> {
            &&& (#[trigger] line[i]).widget_type@ == types[i]@
            &&& line[i].id@ == ""@
            &&& line[i].raw_value == raw
            &&& line[i].bold is None
            &&& line[i].padding is None
            &&& !line[i].merge_next
            &&& line[i].metadata@.len() == 0
        }
}

/// Every entry of `line` has no colours.
pub open spec fn uncoloured(line: Seq<LineWidgetConfig>) -> bool {
    forall|i: int|
        0 <= i < line.len() ==> (#[trigger] line[i]).color is None && line[i].background_color is None
}

/// Entry `i` of `line` is white on `bgs[i]`.
pub open spec fn white_on(line: Seq<LineWidgetConfig>, bgs: Seq<&str>) -> bool {
    &&& line.len() == bgs.len()
    &&& forall|i: int|
        0 <= i < line.len() ==> (#[trigger] line[i]).color.deep_view() == Some("white"@)
            && line[i].background_color.deep_view() == Some(bgs[i]@)
}

fn widget(widget_type: &str) -> (r: LineWidgetConfig)
    ensures
        r.widget_type@ == widget_type@,
        r.id@ == ""@,
        !r.raw_value && r.color is None && r.background_color is None && r.bold is None,
        r.padding is None && !r.merge_next && r.metadata@.len() == 0,
{
    plain_widget(widget_type, "")
}

fn widget_raw(widget_type: &str) -> (r: LineWidgetConfig)
    ensures
        r.widget_type@ == widget_type@,
        r.id@ == ""@,
        r.raw_value && r.color is None && r.background_color is None && r.bold is None,
        r.padding is None && !r.merge_next && r.metadata@.len() == 0,
{
    let mut w = widget(widget_type);
    w.raw_value = true;
    w
}

fn widget_colored(widget_type: &str, fg: &str, bg: &str) -> (r: LineWidgetConfig)
    ensures
        r.widget_type@ == widget_type@,
        r.id@ == ""@,
        !r.raw_value && r.color.deep_view() == Some(fg@) && r.background_color.deep_view() == Some(
            bg@,
        ) && r.bold is None,
        r.padding is None && !r.merge_next && r.metadata@.len() == 0,
{
    let mut w = widget(widget_type);
    w.color = Some(String::from_str(fg));
    w.background_color = Some(String::from_str(bg));
    w
}

/// The minimal preset: model and context gauge, defaults otherwise.
pub open spec fn is_minimal_preset(c: Config) -> bool {
    &&& default_settings(c)
    &&& is_default_powerline(c.powerline)
    &&& c.lines@.len() == 1
    &&& entries_are(c.lines@[0]@, seq!["model", "context-percentage"], false)
    &&& uncoloured(c.lines@[0]@)
}

/// The full preset: usage figures on one line, project state on a second,
/// defaults otherwise.
pub open spec fn is_full_preset(c: Config) -> bool {
    &&& default_settings(c)
    &&& is_default_powerline(c.powerline)
    &&& c.lines@.len() == 2
    &&& entries_are(
        c.lines@[0]@,
        seq!["model", "context-percentage", "tokens-input", "tokens-output", "session-cost", "session-duration"],
        false,
    )
    &&& entries_are(
        c.lines@[1]@,
        seq!["cwd", "git-branch", "git-status", "lines-changed", "version"],
        false,
    )
    &&& uncoloured(c.lines@[0]@)
    &&& uncoloured(c.lines@[1]@)
}

/// The powerline preset: the full layout in white on coloured blocks, with
/// powerline joints, an end cap and alignment.
pub open spec fn is_powerline_preset(c: Config) -> bool {
    &&& default_settings(c)
    &&& c.powerline.enabled
    &&& c.powerline.separator@ == "\u{E0B0}"@
    &&& !c.powerline.separator_invert_background
    &&& c.powerline.start_cap is None
    &&& c.powerline.end_cap.deep_view() == Some("\u{E0B0}"@)
    &&& c.powerline.auto_align
    &&& c.lines@.len() == 2
    &&& entries_are(
        c.lines@[0]@,
        seq!["model", "context-percentage", "tokens-input", "tokens-output", "session-cost", "session-duration"],
        false,
    )
    &&& white_on(c.lines@[0]@, seq!["blue", "green", "cyan", "magenta", "yellow", "red"])
    &&& entries_are(
        c.lines@[1]@,
        seq!["cwd", "git-branch", "git-status", "lines-changed", "version"],
        false,
    )
    &&& white_on(c.lines@[1]@, seq!["blue", "magenta", "green", "cyan", "brightBlack"])
}

/// The compact preset: the minimal figures raw, defaults otherwise.
pub open spec fn is_compact_preset(c: Config) -> bool {
    &&& default_settings(c)
    &&& is_default_powerline(c.powerline)
    &&& c.lines@.len() == 1
    &&& entries_are(
        c.lines@[0]@,
        seq!["model", "context-percentage", "session-cost", "session-duration"],
        true,
    )
    &&& uncoloured(c.lines@[0]@)
}

/// Model and context gauge on one line.
pub fn preset_minimal() -> (r: Config)
    ensures
        is_minimal_preset(r),
{
    let mut c = Config::default();
    c.lines = vec![vec![widget("model"), widget("context-percentage")]];
    c
}

/// Usage figures on one line, project state on a second.
pub fn preset_full() -> (r: Config)
    ensures
        is_full_preset(r),
{
    let mut c = Config::default();
    c.lines = vec![
        vec![
            widget("model"),
            widget("context-percentage"),
            widget("tokens-input"),
            widget("tokens-output"),
            widget("session-cost"),
            widget("session-duration"),
        ],
        vec![
            widget("cwd"),
            widget("git-branch"),
            widget("git-status"),
            widget("lines-changed"),
            widget("version"),
        ],
    ];
    c
}

/// The full layout in white on coloured powerline blocks.
pub fn preset_powerline() -> (r: Config)
    ensures
        is_powerline_preset(r),
{
    let mut c = Config::default();
    c.lines = vec![
        vec![
            widget_colored("model", "white", "blue"),
            widget_colored("context-percentage", "white", "green"),
            widget_colored("tokens-input", "white", "cyan"),
            widget_colored("tokens-output", "white", "magenta"),
            widget_colored("session-cost", "white", "yellow"),
            widget_colored("session-duration", "white", "red"),
        ],
        vec![
            widget_colored("cwd", "white", "blue"),
            widget_colored("git-branch", "white", "magenta"),
            widget_colored("git-status", "white", "green"),
            widget_colored("lines-changed", "white", "cyan"),
            widget_colored("version", "white", "brightBlack"),
        ],
    ];
    c.powerline = PowerlineConfig {
        enabled: true,
        separator: String::from_str("\u{E0B0}"),
        separator_invert_background: false,
        start_cap: None,
        end_cap: Some(String::from_str("\u{E0B0}")),
        auto_align: true,
    };
    c
}

/// The minimal figures in their raw forms on one line.
pub fn preset_compact() -> (r: Config)
    ensures
        is_compact_preset(r),
{
    let mut c = Config::default();
    c.lines = vec![
        vec![
            widget_raw("model"),
            widget_raw("context-percentage"),
            widget_raw("session-cost"),
            widget_raw("session-duration"),
        ],
    ];
    c
}

/// The preset called `name`, or `None` for an unknown name.
pub fn preset(name: &str) -> (r: Option<Config>)
    ensures
        r is Some == (name@ == "minimal"@ || name@ == "full"@ || name@ == "powerline"@ || name@
            == "compact"@),
        name@ == "minimal"@ ==> (r matches Some(c) && is_minimal_preset(c)),
        name@ == "full"@ ==> (r matches Some(c) && is_full_preset(c)),
        name@ == "powerline"@ ==> (r matches Some(c) && is_powerline_preset(c)),
        name@ == "compact"@ ==> (r matches Some(c) && is_compact_preset(c)),
{
    proof {
        reveal_strlit("minimal");
        reveal_strlit("full");
        reveal_strlit("powerline");
        reveal_strlit("compact");
        assert("compact"@[0] != "minimal"@[0]);
        assert("powerline"@.len() != "minimal"@.len());
        assert("powerline"@.len() != "full"@.len());
        assert("powerline"@ != "minimal"@);
        assert("powerline"@ != "full"@);
    }
    if str_eq(name, "minimal") {
        Some(preset_minimal())
    } else if str_eq(name, "full") {
        Some(preset_full())
    } else if str_eq(name, "powerline") {
        Some(preset_powerline())
    } else if str_eq(name, "compact") {
        Some(preset_compact())
    } else {
        None
    }
}

/// Whether `name` is a built-in theme.
pub fn is_theme(name: &str) -> (r: bool)
    ensures
        r == exists|i: int| 0 <= i < theme_names().len() && theme_names()[i]@ == name@,
{
    let names = Theme::list();
    let n = names.len();
    let mut i: usize = 0;
    while i < n
        invariant
            names@ == theme_names(),
            n == names@.len(),
            i <= n,
            forall|j: int| 0 <= j < i ==> theme_names()[j]@ != name@,
        decreases n - i,
    {
        if str_eq(names[i], name) {
            return true;
        }
        i = i + 1;
    }
    false
}

/// Makes `name` the configured theme when it is a built-in one; returns
/// whether it was.
pub fn set_theme(config: &mut Config, name: &str) -> (r: bool)
    ensures
        r == exists|i: int| 0 <= i < theme_names().len() && theme_names()[i]@ == name@,
        r ==> final(config).theme@ == name@,
        !r ==> final(config).theme == old(config).theme,
        final(config).lines == old(config).lines,
        final(config).powerline == old(config).powerline,
        final(config).color_level == old(config).color_level,
        final(config).default_padding == old(config).default_padding,
        final(config).flex_mode == old(config).flex_mode,
        final(config).compact_threshold == old(config).compact_threshold,
        final(config).global_bold == old(config).global_bold,
        final(config).inherit_separator_colors == old(config).inherit_separator_colors,
        final(config).default_separator == old(config).default_separator,
{
    if is_theme(name) {
        config.theme = String::from_str(name);
        true
    } else {
        false
    }
}

} // verus!
