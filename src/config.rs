//! The render configuration: lines of widget settings, theme, powerline
//! style, colour level, padding and fill policy.
use vstd::prelude::*;
use vstd::string::*;

use crate::text::clone_opt;
use crate::widgets::{Metadata, WidgetConfig};

verus! {

/// One widget's entry in a configured line.
#[derive(Clone, Debug)]
pub struct LineWidgetConfig {
    pub widget_type: String,
    pub id: String,
    pub color: Option<String>,
    pub background_color: Option<String>,
    pub bold: Option<bool>,
    pub raw_value: bool,
    pub padding: Option<String>,
    pub merge_next: bool,
    pub metadata: Metadata,
}

/// Powerline-style joining of segments.
#[derive(Clone, Debug)]
pub struct PowerlineConfig {
    pub enabled: bool,
    pub separator: String,
    pub separator_invert_background: bool,
    pub start_cap: Option<String>,
    pub end_cap: Option<String>,
    pub auto_align: bool,
}

/// The whole render configuration.
#[derive(Clone, Debug)]
pub struct Config {
    pub lines: Vec<Vec<LineWidgetConfig>>,
    pub theme: String,
    pub powerline: PowerlineConfig,
    pub color_level: String,
    pub default_padding: String,
    pub flex_mode: String,
    pub compact_threshold: u8,
    pub global_bold: bool,
    pub inherit_separator_colors: bool,
    pub default_separator: String,
}

/// `w` is a plain entry for widget type `t`: no colours, weight, padding
/// or options, not raw and not merged, with id `id`.
pub open spec fn plain_entry(w: LineWidgetConfig, t: Seq<char>, id: Seq<char>) -> bool {
    &&& w.widget_type@ == t
    &&& w.id@ == id
    &&& w.color is None
    &&& w.background_color is None
    &&& w.bold is None
    &&& !w.raw_value
    &&& w.padding is None
    &&& !w.merge_next
    &&& w.metadata@.len() == 0
}

/// A plain entry for widget type `t` with id `id`.
pub fn plain_widget(t: &str, id: &str) -> (r: LineWidgetConfig)
    ensures
        plain_entry(r, t@, id@),
{
    LineWidgetConfig {
        widget_type: String::from_str(t),
        id: String::from_str(id),
        color: None,
        background_color: None,
        bold: None,
        raw_value: false,
        padding: None,
        merge_next: false,
        metadata: Metadata::new(),
    }
}

/// `w` is an entry for widget type `t` with id `id`, foreground `color`,
/// raw as `raw` says, and nothing else set.
pub open spec fn entry_is(
    w: LineWidgetConfig,
    t: Seq<char>,
    id: Seq<char>,
    color: Option<Seq<char>>,
    raw: bool,
) -> bool {
    &&& w.widget_type@ == t
    &&& w.id@ == id
    &&& w.color.deep_view() == color
    &&& w.background_color is None
    &&& w.bold is None
    &&& w.raw_value == raw
    &&& w.padding is None
    &&& !w.merge_next
    &&& w.metadata@.len() == 0
}

/// The default layout: model in cyan (id 1), the context gauge (id 2),
/// the cost in yellow (id 3, raw) and the duration (id 4).
pub open spec fn is_default_layout(lines: Seq<Vec<LineWidgetConfig>>) -> bool {
    &&& lines.len() == 1
    &&& lines[0]@.len() == 4
    &&& entry_is(lines[0]@[0], "model"@, "1"@, Some("cyan"@), false)
    &&& entry_is(lines[0]@[1], "context-percentage"@, "2"@, None, false)
    &&& entry_is(lines[0]@[2], "session-cost"@, "3"@, Some("yellow"@), true)
    &&& entry_is(lines[0]@[3], "session-duration"@, "4"@, None, false)
}

/// The default powerline settings: off, the `\u{E0B0}` glyph, no
/// inverted joints, no caps, no alignment.
pub open spec fn is_default_powerline(p: PowerlineConfig) -> bool {
    &&& !p.enabled
    &&& p.separator@ == "\u{E0B0}"@
    &&& !p.separator_invert_background
    &&& p.start_cap is None
    &&& p.end_cap is None
    &&& !p.auto_align
}

/// The default layout: one line of model, context gauge, cost and
/// duration.
pub fn default_lines() -> (r: Vec<Vec<LineWidgetConfig>>)
    ensures
        is_default_layout(r@),
{
    let mut model = plain_widget("model", "1");
    model.color = Some(String::from_str("cyan"));
    let context = plain_widget("context-percentage", "2");
    let mut cost = plain_widget("session-cost", "3");
    cost.color = Some(String::from_str("yellow"));
    cost.raw_value = true;
    let duration = plain_widget("session-duration", "4");
    let line = vec![model, context, cost, duration];
    vec![line]
}

pub fn default_theme() -> (r: String)
    ensures
        r@ == "default"@,
{
    String::from_str("default")
}

pub fn default_color_level() -> (r: String)
    ensures
        r@ == "auto"@,
{
    String::from_str("auto")
}

pub fn default_padding() -> (r: String)
    ensures
        r@ == " "@,
{
    String::from_str(" ")
}

pub fn default_flex_mode() -> (r: String)
    ensures
        r@ == "full-minus-40"@,
{
    String::from_str("full-minus-40")
}

pub fn default_compact_threshold() -> (r: u8)
    ensures
        r == 60,
{
    60
}

pub fn default_separator() -> (r: String)
    ensures
        r@ == " | "@,
{
    String::from_str(" | ")
}

pub fn default_powerline_separator() -> (r: String)
    ensures
        r@ == "\u{E0B0}"@,
{
    String::from_str("\u{E0B0}")
}

impl Default for PowerlineConfig {
    fn default() -> (r: Self)
        ensures
            is_default_powerline(r),
    {
        PowerlineConfig {
            enabled: false,
            separator: default_powerline_separator(),
            separator_invert_background: false,
            start_cap: None,
            end_cap: None,
            auto_align: false,
        }
    }
}

impl Default for Config {
    fn default() -> (r: Self)
        ensures
            is_default_layout(r.lines@),
            is_default_powerline(r.powerline),
            r.theme@ == "default"@,
            r.color_level@ == "auto"@,
            r.default_padding@ == " "@,
            r.flex_mode@ == "full-minus-40"@,
            r.compact_threshold == 60,
            !r.global_bold,
            !r.inherit_separator_colors,
            r.default_separator@ == " | "@,
    {
        let powerline = PowerlineConfig {
            enabled: false,
            separator: default_powerline_separator(),
            separator_invert_background: false,
            start_cap: None,
            end_cap: None,
            auto_align: false,
        };
        Config {
            lines: default_lines(),
            theme: default_theme(),
            powerline,
            color_level: default_color_level(),
            default_padding: default_padding(),
            flex_mode: default_flex_mode(),
            compact_threshold: default_compact_threshold(),
            global_bold: false,
            inherit_separator_colors: false,
            default_separator: default_separator(),
        }
    }
}

/// `w` carries exactly the settings of `l`.
pub open spec fn same_settings(w: WidgetConfig, l: LineWidgetConfig) -> bool {
    &&& w.widget_type@ == l.widget_type@
    &&& w.id@ == l.id@
    &&& w.color.deep_view() == l.color.deep_view()
    &&& w.background_color.deep_view() == l.background_color.deep_view()
    &&& w.bold == l.bold
    &&& w.raw_value == l.raw_value
    &&& w.padding.deep_view() == l.padding.deep_view()
    &&& w.merge_next == l.merge_next
    &&& w.metadata@ == l.metadata@
}

impl Config {
    /// The widget settings of a line entry, field for field.
    pub fn to_widget_config(lwc: &LineWidgetConfig) -> (r: WidgetConfig)
        ensures
            same_settings(r, *lwc),
    {
        WidgetConfig {
            widget_type: lwc.widget_type.clone(),
            id: lwc.id.clone(),
            color: clone_opt(&lwc.color),
            background_color: clone_opt(&lwc.background_color),
            bold: lwc.bold,
            raw_value: lwc.raw_value,
            padding: clone_opt(&lwc.padding),
            merge_next: lwc.merge_next,
            metadata: lwc.metadata.copy(),
        }
    }
}

} // verus!
