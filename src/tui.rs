//! The state of the interactive configuration editor and how each key
//! changes it. Drawing the screen and reading keys happen outside.
use vstd::prelude::*;
use vstd::string::*;

use crate::config::{plain_entry, plain_widget, Config, LineWidgetConfig};
use crate::text::str_eq;
use crate::themes::{theme_names, Theme};
use crate::widgets::{catalog, WidgetRegistry};

verus! {

/// The editor's tabs, in order.
#[derive(Clone, Copy, Debug, PartialEq, Eq, Structural)]
pub enum Tab {
    Widgets,
    Theme,
    Powerline,
    Layout,
    Preview,
}

pub open spec fn tab_index(t: Tab) -> nat {
    match t {
        Tab::Widgets => 0,
        Tab::Theme => 1,
        Tab::Powerline => 2,
        Tab::Layout => 3,
        Tab::Preview => 4,
    }
}

/// The tab at position `i`; positions past the end give the first tab.
pub open spec fn tab_at(i: nat) -> Tab {
    if i == 1 {
        Tab::Theme
    } else if i == 2 {
        Tab::Powerline
    } else if i == 3 {
        Tab::Layout
    } else if i == 4 {
        Tab::Preview
    } else {
        Tab::Widgets
    }
}

pub const TAB_COUNT: usize = 5;

impl Tab {
    pub fn index(self) -> (r: usize)
        ensures
            r == tab_index(self),
    {
        match self {
            Tab::Widgets => 0,
            Tab::Theme => 1,
            Tab::Powerline => 2,
            Tab::Layout => 3,
            Tab::Preview => 4,
        }
    }

    pub fn from_index(i: usize) -> (r: Tab)
        ensures
            r == tab_at(i as nat),
    {
        match i {
            1 => Tab::Theme,
            2 => Tab::Powerline,
            3 => Tab::Layout,
            4 => Tab::Preview,
            _ => Tab::Widgets,
        }
    }

    pub fn count() -> (r: usize)
        ensures
            r == 5,
    {
        TAB_COUNT
    }
}

/// A key press, as far as the editor tells keys apart.
#[derive(Clone, Copy, Debug, PartialEq, Eq, Structural)]
pub enum Key {
    Up,
    Down,
    Left,
    Right,
    Enter,
    Delete,
    Tab,
    BackTab,
    Char(char),
    Other,
}

/// What the surrounding loop does after a key.
#[derive(Clone, Copy, Debug, PartialEq, Eq, Structural)]
pub enum Action {
    Continue,
    Quit,
    Save,
}

/// Editor state: the configuration being edited and the cursors.
#[derive(Clone, Debug)]
pub struct TuiState {
    pub config: Config,
    pub active_tab: Tab,
    pub widget_cursor: usize,
    pub active_line: usize,
    pub theme_cursor: usize,
    pub powerline_cursor: usize,
    pub layout_cursor: usize,
    pub modified: bool,
}

/// Separator glyphs the powerline tab cycles through.
pub open spec fn separator_cycle() -> Seq<&'static str> {
    seq!["\u{E0B0}", "\u{E0B4}", "\u{E0BC}", "/", "|"]
}

/// Flex modes the layout tab cycles through.
pub open spec fn flex_cycle() -> Seq<&'static str> {
    seq!["full-minus-40", "full", "compact"]
}

/// Position of `s` in `opts`, or `0` when absent.
pub open spec fn position_or_first(opts: Seq<&'static str>, s: Seq<char>) -> int {
    if exists|i: int| 0 <= i < opts.len() && opts[i]@ == s {
        choose|i: int| 0 <= i < opts.len() && opts[i]@ == s && forall|j: int| 0 <= j < i ==> opts[j]@ != s
    } else {
        0
    }
}

/// The option after `s` in the cycle `opts`.
pub open spec fn next_in_cycle(opts: Seq<&'static str>, s: Seq<char>) -> Seq<char> {
    opts[(position_or_first(opts, s) + 1) % opts.len() as int]@
}

/// Whether some entry of `line` has widget type `t`.
pub open spec fn type_used(line: Seq<LineWidgetConfig>, t: Seq<char>) -> bool {
    exists|j: int| 0 <= j < line.len() && (#[trigger] line[j]).widget_type@ == t
}

/// The first catalog type from position `i` on that `line` does not use
/// yet, or `custom-text` when all are used.
pub open spec fn first_unused(line: Seq<LineWidgetConfig>, i: int) -> Seq<char>
    decreases catalog().len() - i,
{
    if i < 0 || i >= catalog().len() {
        "custom-text"@
    } else if !type_used(line, catalog()[i]@) {
        catalog()[i]@
    } else {
        first_unused(line, i + 1)
    }
}

/// The two configurations differ at most in their lines.
pub open spec fn same_but_lines(a: Config, b: Config) -> bool {
    &&& a.theme == b.theme
    &&& a.powerline == b.powerline
    &&& a.color_level == b.color_level
    &&& a.default_padding == b.default_padding
    &&& a.flex_mode == b.flex_mode
    &&& a.compact_threshold == b.compact_threshold
    &&& a.global_bold == b.global_bold
    &&& a.inherit_separator_colors == b.inherit_separator_colors
    &&& a.default_separator == b.default_separator
}

/// `s` with the entries at `a` and `b` exchanged.
pub open spec fn swapped<T>(s: Seq<T>, a: int, b: int) -> Seq<T> {
    s.update(a, s[b]).update(b, s[a])
}

/// The cursors other than the widget cursor and active line are kept.
pub open spec fn other_cursors_kept(a: TuiState, b: TuiState) -> bool {
    &&& a.active_tab == b.active_tab
    &&& a.theme_cursor == b.theme_cursor
    &&& a.powerline_cursor == b.powerline_cursor
    &&& a.layout_cursor == b.layout_cursor
}

/// Only line `i` of the configuration changed, to `new_line`.
pub open spec fn line_replaced(a: Config, b: Config, i: int, new_line: Seq<LineWidgetConfig>) -> bool {
    &&& same_but_lines(a, b)
    &&& b.lines@.len() == a.lines@.len()
    &&& b.lines@[i]@ == new_line
    &&& forall|j: int| 0 <= j < a.lines@.len() && j != i ==> b.lines@[j] == a.lines@[j]
}

/// A plain widget entry for `widget_type`, with an empty id.
pub fn default_widget(widget_type: &str) -> (r: LineWidgetConfig)
    ensures
        plain_entry(r, widget_type@, ""@),
{
    plain_widget(widget_type, "")
}

/// Every widget type the editor offers, in catalog order.
pub fn available_widget_types() -> (r: Vec<&'static str>)
    ensures
        r@ == catalog(),
{
    WidgetRegistry::widget_types()
}

fn type_used_exec(line: &Vec<LineWidgetConfig>, t: &str) -> (r: bool)
    ensures
        r == type_used(line@, t@),
{
    let n = line.len();
    let mut j: usize = 0;
    while j < n
        invariant
            n == line@.len(),
            j <= n,
            forall|k: int| 0 <= k < j ==> (#[trigger] line@[k]).widget_type@ != t@,
        decreases n - j,
    {
        if str_eq(line[j].widget_type.as_str(), t) {
            assert(line@[j as int].widget_type@ == t@);
            return true;
        }
        j = j + 1;
    }
    false
}

fn first_unused_exec(line: &Vec<LineWidgetConfig>) -> (r: String)
    ensures
        r@ == first_unused(line@, 0),
{
    let types = available_widget_types();
    let n = types.len();
    let mut i: usize = 0;
    while i < n
        invariant
            n == catalog().len(),
            types@ == catalog(),
            i <= n,
            first_unused(line@, 0) == first_unused(line@, i as int),
        decreases n - i,
    {
        if !type_used_exec(line, types[i]) {
            return String::from_str(types[i]);
        }
        i = i + 1;
    }
    String::from_str("custom-text")
}

fn position_or_first_exec(opts: &Vec<&'static str>, s: &str) -> (r: usize)
    requires
        opts@.len() > 0,
    ensures
        r as int == position_or_first(opts@, s@),
        r < opts@.len(),
{
    let n = opts.len();
    let mut i: usize = 0;
    while i < n
        invariant
            n == opts@.len(),
            i <= n,
            forall|j: int| 0 <= j < i ==> opts@[j]@ != s@,
        decreases n - i,
    {
        if str_eq(opts[i], s) {
            proof {
                let w = choose|k: int|
                    0 <= k < opts@.len() && opts@[k]@ == s@ && forall|j: int|
                        0 <= j < k ==> opts@[j]@ != s@;
                assert(0 <= i < opts@.len() && opts@[i as int]@ == s@ && forall|j: int|
                    0 <= j < i ==> opts@[j]@ != s@);
                if w < i {
                    assert(opts@[w]@ != s@);
                } else if w > i {
                    assert(opts@[i as int]@ != s@);
                }
            }
            return i;
        }
        i = i + 1;
    }
    0
}

fn next_in_cycle_exec(opts: &Vec<&'static str>, s: &str) -> (r: String)
    requires
        opts@.len() > 0,
    ensures
        r@ == next_in_cycle(opts@, s@),
{
    let n = opts.len();
    let i = position_or_first_exec(opts, s);
    String::from_str(opts[(i + 1) % n])
}

/// How a key changes the editor state on the widgets tab: `o0` before, `f0` after.
pub open spec fn widgets_step(o0: TuiState, f0: TuiState, key: Key) -> bool {
    &&& other_cursors_kept(o0, f0)
    &&& same_but_lines(o0.config, f0.config)
    &&& f0.config.lines@.len() == o0.config.lines@.len()
    &&& ({
        let o = o0;
        let f = f0;
        let al = o.active_line as int;
        let valid = al < o.config.lines@.len();
        let line = if valid {
            o.config.lines@[al]@
        } else {
            Seq::<LineWidgetConfig>::empty()
        };
        let c = o.widget_cursor as int;
        let unchanged = f.config.lines == o.config.lines && f.modified == o.modified;
        match key {
            Key::Up => unchanged && f.active_line == o.active_line && f.widget_cursor == (
            if c > 0 {
                c - 1
            } else {
                c
            }),
            Key::Down => unchanged && f.active_line == o.active_line && f.widget_cursor == (
            if line.len() > 0 && c < line.len() - 1 {
                c + 1
            } else {
                c
            }),
            Key::Left => unchanged && if al > 0 {
                f.active_line == al - 1 && f.widget_cursor == 0
            } else {
                f.active_line == o.active_line && f.widget_cursor == o.widget_cursor
            },
            Key::Right => unchanged && if al + 1 < o.config.lines@.len() {
                f.active_line == al + 1 && f.widget_cursor == 0
            } else {
                f.active_line == o.active_line && f.widget_cursor == o.widget_cursor
            },
            Key::Char('a') => f.active_line == o.active_line && f.widget_cursor
                == o.widget_cursor && if valid {
                f.modified && f.config.lines@[al]@.len() == line.len() + 1
                    && f.config.lines@[al]@.subrange(0, line.len() as int) == line
                    && plain_entry(
                    f.config.lines@[al]@[line.len() as int],
                    first_unused(line, 0),
                    ""@,
                ) && forall|j: int|
                    0 <= j < o.config.lines@.len() && j != al ==> f.config.lines@[j]
                        == o.config.lines@[j]
            } else {
                unchanged
            },
            Key::Char('d') | Key::Delete => f.active_line == o.active_line && if valid
                && c < line.len() {
                let rest = line.remove(c);
                f.modified && line_replaced(o.config, f.config, al, rest)
                    && f.widget_cursor == (if c >= rest.len() && rest.len() > 0 {
                    rest.len() - 1
                } else {
                    c
                })
            } else {
                unchanged && f.widget_cursor == o.widget_cursor
            },
            Key::Char('k') => f.active_line == o.active_line && if valid && c > 0 && c
                < line.len() {
                f.modified && line_replaced(o.config, f.config, al, swapped(line, c, c - 1))
                    && f.widget_cursor == c - 1
            } else {
                unchanged && f.widget_cursor == o.widget_cursor
            },
            Key::Char('j') => f.active_line == o.active_line && if valid && c + 1
                < line.len() {
                f.modified && line_replaced(o.config, f.config, al, swapped(line, c, c + 1))
                    && f.widget_cursor == c + 1
            } else {
                unchanged && f.widget_cursor == o.widget_cursor
            },
            _ => unchanged && f.active_line == o.active_line && f.widget_cursor
                == o.widget_cursor,
        }
    })
}

/// How a key changes the editor state on the theme tab: `o0` before, `f0` after.
pub open spec fn theme_step(o0: TuiState, f0: TuiState, key: Key) -> bool {
    &&& f0.active_tab == o0.active_tab
    &&& f0.widget_cursor == o0.widget_cursor
    &&& f0.active_line == o0.active_line
    &&& f0.powerline_cursor == o0.powerline_cursor
    &&& f0.layout_cursor == o0.layout_cursor
    &&& f0.config.lines == o0.config.lines
    &&& f0.config.color_level == o0.config.color_level
    &&& f0.config.default_padding == o0.config.default_padding
    &&& f0.config.compact_threshold == o0.config.compact_threshold
    &&& f0.config.global_bold == o0.config.global_bold
    &&& f0.config.inherit_separator_colors == o0.config.inherit_separator_colors
    &&& f0.config.default_separator == o0.config.default_separator
    &&& ({
        let o = o0;
        let f = f0;
        let c = o.theme_cursor as int;
        match key {
            Key::Up => f.config == o.config && f.modified == o.modified && f.theme_cursor
                == (if c > 0 {
                c - 1
            } else {
                c
            }),
            Key::Down => f.config == o.config && f.modified == o.modified && f.theme_cursor
                == (if c < 10 {
                c + 1
            } else {
                c
            }),
            Key::Enter => f.theme_cursor == o.theme_cursor && if c < 11 {
                f.modified && f.config.theme@ == theme_names()[c]@ && f.config.powerline
                    == o.config.powerline && f.config.flex_mode == o.config.flex_mode
            } else {
                f.config == o.config && f.modified == o.modified
            },
            _ => f.config == o.config && f.modified == o.modified && f.theme_cursor
                == o.theme_cursor,
        }
    })
}

/// How a key changes the editor state on the powerline tab: `o0` before, `f0` after.
pub open spec fn powerline_step(o0: TuiState, f0: TuiState, key: Key) -> bool {
    &&& f0.active_tab == o0.active_tab
    &&& f0.widget_cursor == o0.widget_cursor
    &&& f0.active_line == o0.active_line
    &&& f0.theme_cursor == o0.theme_cursor
    &&& f0.layout_cursor == o0.layout_cursor
    &&& f0.config.lines == o0.config.lines
    &&& f0.config.theme == o0.config.theme
    &&& f0.config.flex_mode == o0.config.flex_mode
    &&& f0.config.color_level == o0.config.color_level
    &&& f0.config.default_padding == o0.config.default_padding
    &&& f0.config.compact_threshold == o0.config.compact_threshold
    &&& f0.config.global_bold == o0.config.global_bold
    &&& f0.config.inherit_separator_colors == o0.config.inherit_separator_colors
    &&& f0.config.default_separator == o0.config.default_separator
    &&& f0.config.powerline.separator_invert_background
        == o0.config.powerline.separator_invert_background
    &&& f0.config.powerline.start_cap == o0.config.powerline.start_cap
    &&& f0.config.powerline.end_cap == o0.config.powerline.end_cap
    &&& ({
        let o = o0;
        let f = f0;
        let c = o.powerline_cursor as int;
        let pl = o.config.powerline;
        let npl = f.config.powerline;
        match key {
            Key::Up => f.config == o.config && f.modified == o.modified
                && f.powerline_cursor == (if c > 0 {
                c - 1
            } else {
                c
            }),
            Key::Down => f.config == o.config && f.modified == o.modified
                && f.powerline_cursor == (if c < 2 {
                c + 1
            } else {
                c
            }),
            Key::Enter | Key::Char(' ') => f.powerline_cursor == o.powerline_cursor && if c
                == 0 {
                f.modified && npl.enabled == !pl.enabled && npl.separator == pl.separator
                    && npl.auto_align == pl.auto_align
            } else if c == 1 {
                f.modified && npl.enabled == pl.enabled && npl.separator@ == next_in_cycle(
                    separator_cycle(),
                    pl.separator@,
                ) && npl.auto_align == pl.auto_align
            } else if c == 2 {
                f.modified && npl.enabled == pl.enabled && npl.separator == pl.separator
                    && npl.auto_align == !pl.auto_align
            } else {
                f.config == o.config && f.modified == o.modified
            },
            _ => f.config == o.config && f.modified == o.modified && f.powerline_cursor
                == o.powerline_cursor,
        }
    })
}

/// How a key changes the editor state on the layout tab: `o0` before, `f0` after.
pub open spec fn layout_step(o0: TuiState, f0: TuiState, key: Key) -> bool {
    &&& f0.active_tab == o0.active_tab
    &&& f0.widget_cursor == o0.widget_cursor
    &&& f0.theme_cursor == o0.theme_cursor
    &&& f0.powerline_cursor == o0.powerline_cursor
    &&& f0.config.theme == o0.config.theme
    &&& f0.config.powerline == o0.config.powerline
    &&& ({
        let o = o0;
        let f = f0;
        let c = o.layout_cursor as int;
        let n = o.config.lines@.len();
        match key {
            Key::Up => f.config == o.config && f.modified == o.modified && f.active_line
                == o.active_line && f.layout_cursor == (if c > 0 {
                c - 1
            } else {
                c
            }),
            Key::Down => f.config == o.config && f.modified == o.modified && f.active_line
                == o.active_line && f.layout_cursor == (if c < 2 {
                c + 1
            } else {
                c
            }),
            Key::Enter | Key::Char(' ') => f.layout_cursor == o.layout_cursor && if c == 0
                && n < 3 {
                f.modified && f.active_line == o.active_line && f.config.lines@.len() == n
                    + 1 && f.config.lines@.subrange(0, n as int) == o.config.lines@
                    && f.config.lines@[n as int]@.len() == 0 && f.config.flex_mode
                    == o.config.flex_mode
            } else if c == 1 && n > 1 {
                f.modified && f.config.lines@ == o.config.lines@.subrange(0, n - 1)
                    && f.active_line == (if o.active_line >= n - 1 {
                    n - 2
                } else {
                    o.active_line as int
                }) && f.config.flex_mode == o.config.flex_mode
            } else if c == 2 {
                f.modified && f.active_line == o.active_line && f.config.lines
                    == o.config.lines && f.config.flex_mode@ == next_in_cycle(
                    flex_cycle(),
                    o.config.flex_mode@,
                )
            } else {
                f.config == o.config && f.modified == o.modified && f.active_line
                    == o.active_line
            },
            _ => f.config == o.config && f.modified == o.modified && f.active_line
                == o.active_line && f.layout_cursor == o.layout_cursor,
        }
    })
}

/// How a key handed to the active tab changes the editor state.
pub open spec fn tab_step(o0: TuiState, f0: TuiState, key: Key) -> bool {
    match o0.active_tab {
        Tab::Widgets => widgets_step(o0, f0, key),
        Tab::Theme => theme_step(o0, f0, key),
        Tab::Powerline => powerline_step(o0, f0, key),
        Tab::Layout => layout_step(o0, f0, key),
        Tab::Preview => f0 == o0,
    }
}

impl TuiState {
    /// A fresh editor on `config`: first tab, all cursors at the top,
    /// nothing modified.
    pub fn new(config: Config) -> (r: TuiState)
        ensures
            r.config == config,
            r.active_tab == Tab::Widgets,
            r.widget_cursor == 0,
            r.active_line == 0,
            r.theme_cursor == 0,
            r.powerline_cursor == 0,
            r.layout_cursor == 0,
            !r.modified,
    {
        TuiState {
            config,
            active_tab: Tab::Widgets,
            widget_cursor: 0,
            active_line: 0,
            theme_cursor: 0,
            powerline_cursor: 0,
            layout_cursor: 0,
            modified: false,
        }
    }

    /// Appends to the active line the first widget type it lacks.
    fn add_widget(&mut self)
        ensures
            other_cursors_kept(*old(self), *final(self)),
            same_but_lines(old(self).config, final(self).config),
            final(self).config.lines@.len() == old(self).config.lines@.len(),
            ({
                let o = *old(self);
                let f = *final(self);
                let al = o.active_line as int;
                let valid = al < o.config.lines@.len();
                let line = if valid {
                    o.config.lines@[al]@
                } else {
                    Seq::<LineWidgetConfig>::empty()
                };
                f.active_line == o.active_line && f.widget_cursor == o.widget_cursor && if valid {
                    f.modified && f.config.lines@[al]@.len() == line.len() + 1
                        && f.config.lines@[al]@.subrange(0, line.len() as int) == line
                        && plain_entry(f.config.lines@[al]@[line.len() as int], first_unused(line, 0), ""@)
                        && forall|j: int|
                        0 <= j < o.config.lines@.len() && j != al ==> f.config.lines@[j]
                            == o.config.lines@[j]
                } else {
                    f.config.lines == o.config.lines && f.modified == o.modified
                }
            }),
    {
        let al = self.active_line;
        if al < self.config.lines.len() {
            let ghost old_lines = self.config.lines@;
            let mut line = self.config.lines.remove(al);
            let line_count = line.len();
            let t = first_unused_exec(&line);
            let w = default_widget(t.as_str());
            line.push(w);
            self.config.lines.insert(al, line);
            self.modified = true;
            assert(forall|j: int|
                0 <= j < old_lines.len() && j != al ==> self.config.lines@[j] == old_lines[j]);
            assert(self.config.lines@[al as int]@.subrange(0, line_count as int)
                =~= old_lines[al as int]@);
        }
    }

    /// Removes the widget under the cursor from the active line.
    fn delete_widget(&mut self)
        ensures
            other_cursors_kept(*old(self), *final(self)),
            same_but_lines(old(self).config, final(self).config),
            final(self).config.lines@.len() == old(self).config.lines@.len(),
            ({
                let o = *old(self);
                let f = *final(self);
                let al = o.active_line as int;
                let valid = al < o.config.lines@.len();
                let line = if valid {
                    o.config.lines@[al]@
                } else {
                    Seq::<LineWidgetConfig>::empty()
                };
                let c = o.widget_cursor as int;
                f.active_line == o.active_line && if valid && c < line.len() {
                    let rest = line.remove(c);
                    f.modified && line_replaced(o.config, f.config, al, rest) && f.widget_cursor == (
                    if c >= rest.len() && rest.len() > 0 {
                        rest.len() - 1
                    } else {
                        c
                    })
                } else {
                    f.config.lines == o.config.lines && f.modified == o.modified && f.widget_cursor
                        == o.widget_cursor
                }
            }),
    {
        let al = self.active_line;
        if al < self.config.lines.len() && self.widget_cursor < self.config.lines[al].len() {
            let ghost old_lines = self.config.lines@;
            let mut line = self.config.lines.remove(al);
            line.remove(self.widget_cursor);
            let len = line.len();
            self.config.lines.insert(al, line);
            if self.widget_cursor >= len && len > 0 {
                self.widget_cursor = len - 1;
            }
            self.modified = true;
            assert(forall|j: int|
                0 <= j < old_lines.len() && j != al ==> self.config.lines@[j] == old_lines[j]);
        }
    }

    /// Moves the widget under the cursor one place towards the start.
    fn move_widget_up(&mut self)
        ensures
            other_cursors_kept(*old(self), *final(self)),
            same_but_lines(old(self).config, final(self).config),
            final(self).config.lines@.len() == old(self).config.lines@.len(),
            ({
                let o = *old(self);
                let f = *final(self);
                let al = o.active_line as int;
                let valid = al < o.config.lines@.len();
                let line = if valid {
                    o.config.lines@[al]@
                } else {
                    Seq::<LineWidgetConfig>::empty()
                };
                let c = o.widget_cursor as int;
                f.active_line == o.active_line && if valid && c > 0 && c < line.len() {
                    f.modified && line_replaced(o.config, f.config, al, swapped(line, c, c - 1))
                        && f.widget_cursor == c - 1
                } else {
                    f.config.lines == o.config.lines && f.modified == o.modified && f.widget_cursor
                        == o.widget_cursor
                }
            }),
    {
        let al = self.active_line;
        let c = self.widget_cursor;
        if al < self.config.lines.len() && c > 0 && c < self.config.lines[al].len() {
            let ghost old_lines = self.config.lines@;
            let ghost old_line = old_lines[al as int]@;
            let mut line = self.config.lines.remove(al);
            let x = line.remove(c);
            line.insert(c - 1, x);
            assert(line@ =~= swapped(old_line, c as int, c - 1));
            self.config.lines.insert(al, line);
            self.widget_cursor = c - 1;
            self.modified = true;
            assert(forall|j: int|
                0 <= j < old_lines.len() && j != al ==> self.config.lines@[j] == old_lines[j]);
        }
    }

    /// Moves the widget under the cursor one place towards the end.
    fn move_widget_down(&mut self)
        ensures
            other_cursors_kept(*old(self), *final(self)),
            same_but_lines(old(self).config, final(self).config),
            final(self).config.lines@.len() == old(self).config.lines@.len(),
            ({
                let o = *old(self);
                let f = *final(self);
                let al = o.active_line as int;
                let valid = al < o.config.lines@.len();
                let line = if valid {
                    o.config.lines@[al]@
                } else {
                    Seq::<LineWidgetConfig>::empty()
                };
                let c = o.widget_cursor as int;
                f.active_line == o.active_line && if valid && c + 1 < line.len() {
                    f.modified && line_replaced(o.config, f.config, al, swapped(line, c, c + 1))
                        && f.widget_cursor == c + 1
                } else {
                    f.config.lines == o.config.lines && f.modified == o.modified && f.widget_cursor
                        == o.widget_cursor
                }
            }),
    {
        let al = self.active_line;
        let c = self.widget_cursor;
        if al < self.config.lines.len() && c < self.config.lines[al].len() && c + 1
            < self.config.lines[al].len() {
            let ghost old_lines = self.config.lines@;
            let ghost old_line = old_lines[al as int]@;
            let mut line = self.config.lines.remove(al);
            let x = line.remove(c + 1);
            line.insert(c, x);
            assert(line@ =~= swapped(old_line, c as int, c + 1));
            self.config.lines.insert(al, line);
            self.widget_cursor = c + 1;
            self.modified = true;
            assert(forall|j: int|
                0 <= j < old_lines.len() && j != al ==> self.config.lines@[j] == old_lines[j]);
        }
    }

    /// Keys of the widgets tab: move the cursor and the active line, add
    /// the first unused widget type (`a`), delete (`d`, Delete), and move
    /// the widget up (`k`) or down (`j`).
    pub fn handle_widgets_input(&mut self, key: Key)
        ensures
            widgets_step(*old(self), *final(self), key),
    {
        let al = self.active_line;
        let valid = al < self.config.lines.len();
        let line_count = if valid {
            self.config.lines[al].len()
        } else {
            0
        };
        match key {
            Key::Up => {
                if self.widget_cursor > 0 {
                    self.widget_cursor = self.widget_cursor - 1;
                }
            },
            Key::Down => {
                if line_count > 0 && self.widget_cursor < line_count - 1 {
                    self.widget_cursor = self.widget_cursor + 1;
                }
            },
            Key::Left => {
                if self.active_line > 0 {
                    self.active_line = self.active_line - 1;
                    self.widget_cursor = 0;
                }
            },
            Key::Right => {
                let n = self.config.lines.len();
                if n > 0 && self.active_line < n - 1 {
                    self.active_line = self.active_line + 1;
                    self.widget_cursor = 0;
                }
            },
            Key::Char('a') => self.add_widget(),
            Key::Char('d') | Key::Delete => self.delete_widget(),
            Key::Char('k') => self.move_widget_up(),
            Key::Char('j') => self.move_widget_down(),
            _ => {},
        }
    }

    /// Keys of the theme tab: move through the theme list and pick one
    /// with Enter.
    pub fn handle_theme_input(&mut self, key: Key)
        ensures
            theme_step(*old(self), *final(self), key),
    {
        let themes = Theme::list();
        match key {
            Key::Up => {
                if self.theme_cursor > 0 {
                    self.theme_cursor = self.theme_cursor - 1;
                }
            },
            Key::Down => {
                if self.theme_cursor < themes.len() - 1 {
                    self.theme_cursor = self.theme_cursor + 1;
                }
            },
            Key::Enter => {
                if self.theme_cursor < themes.len() {
                    self.config.theme = String::from_str(themes[self.theme_cursor]);
                    self.modified = true;
                }
            },
            _ => {},
        }
    }

    /// Keys of the powerline tab: move among its three settings and, with
    /// Enter or Space, toggle powerline, cycle the separator glyph, or
    /// toggle auto-alignment.
    pub fn handle_powerline_input(&mut self, key: Key)
        ensures
            powerline_step(*old(self), *final(self), key),
    {
        match key {
            Key::Up => {
                if self.powerline_cursor > 0 {
                    self.powerline_cursor = self.powerline_cursor - 1;
                }
            },
            Key::Down => {
                if self.powerline_cursor < 2 {
                    self.powerline_cursor = self.powerline_cursor + 1;
                }
            },
            Key::Enter | Key::Char(' ') => {
                if self.powerline_cursor == 0 {
                    self.config.powerline.enabled = !self.config.powerline.enabled;
                    self.modified = true;
                } else if self.powerline_cursor == 1 {
                    let seps = vec!["\u{E0B0}", "\u{E0B4}", "\u{E0BC}", "/", "|"];
                    let next = next_in_cycle_exec(&seps, self.config.powerline.separator.as_str());
                    self.config.powerline.separator = next;
                    self.modified = true;
                } else if self.powerline_cursor == 2 {
                    self.config.powerline.auto_align = !self.config.powerline.auto_align;
                    self.modified = true;
                }
            },
            _ => {},
        }
    }

    /// Keys of the layout tab: move among its three actions and, with
    /// Enter or Space, add a line (up to three), remove the last line
    /// (keeping one), or cycle the flex mode.
    pub fn handle_layout_input(&mut self, key: Key)
        ensures
            layout_step(*old(self), *final(self), key),
    {
        match key {
            Key::Up => {
                if self.layout_cursor > 0 {
                    self.layout_cursor = self.layout_cursor - 1;
                }
            },
            Key::Down => {
                if self.layout_cursor < 2 {
                    self.layout_cursor = self.layout_cursor + 1;
                }
            },
            Key::Enter | Key::Char(' ') => {
                if self.layout_cursor == 0 {
                    if self.config.lines.len() < 3 {
                        let ghost before = self.config.lines@;
                        self.config.lines.push(Vec::new());
                        self.modified = true;
                        assert(self.config.lines@.subrange(0, before.len() as int) =~= before);
                    }
                } else if self.layout_cursor == 1 {
                    if self.config.lines.len() > 1 {
                        self.config.lines.pop();
                        let n = self.config.lines.len();
                        if self.active_line >= n {
                            self.active_line = n - 1;
                        }
                        self.modified = true;
                    }
                } else if self.layout_cursor == 2 {
                    let modes = vec!["full-minus-40", "full", "compact"];
                    let next = next_in_cycle_exec(&modes, self.config.flex_mode.as_str());
                    self.config.flex_mode = next;
                    self.modified = true;
                }
            },
            _ => {},
        }
    }

    /// Hands a key to the active tab; the preview tab takes none.
    pub fn handle_tab_input(&mut self, key: Key)
        ensures
            final(self).active_tab == old(self).active_tab,
            tab_step(*old(self), *final(self), key),
    {
        match self.active_tab {
            Tab::Widgets => self.handle_widgets_input(key),
            Tab::Theme => self.handle_theme_input(key),
            Tab::Powerline => self.handle_powerline_input(key),
            Tab::Layout => self.handle_layout_input(key),
            Tab::Preview => {},
        }
    }

    /// One key of the editor loop: `q` quits, Ctrl-S asks for a save and
    /// clears the modified mark, Tab and Shift-Tab switch tabs cyclically,
    /// and any other key goes to the active tab.
    pub fn handle_key(&mut self, key: Key, ctrl: bool) -> (r: Action)
        ensures
            key == Key::Char('q') ==> r == Action::Quit && *final(self) == *old(self),
            key == Key::Char('s') && ctrl ==> r == Action::Save && *final(self) == (TuiState {
                modified: false,
                ..*old(self)
            }),
            key == Key::Tab ==> r == Action::Continue && *final(self) == (TuiState {
                active_tab: tab_at(((tab_index(old(self).active_tab) + 1) % 5) as nat),
                ..*old(self)
            }),
            key == Key::BackTab ==> r == Action::Continue && *final(self) == (TuiState {
                active_tab: tab_at(
                    if tab_index(old(self).active_tab) == 0 {
                        4
                    } else {
                        (tab_index(old(self).active_tab) - 1) as nat
                    },
                ),
                ..*old(self)
            }),
            key != Key::Char('q') && !(key == Key::Char('s') && ctrl) && key != Key::Tab && key
                != Key::BackTab ==> r == Action::Continue && final(self).active_tab == old(
                self,
            ).active_tab && tab_step(*old(self), *final(self), key),
    {
        match key {
            Key::Char('q') => Action::Quit,
            Key::Char('s') if ctrl => {
                self.modified = false;
                Action::Save
            },
            Key::Tab => {
                let next = (self.active_tab.index() + 1) % Tab::count();
                self.active_tab = Tab::from_index(next);
                Action::Continue
            },
            Key::BackTab => {
                let prev = if self.active_tab.index() == 0 {
                    Tab::count() - 1
                } else {
                    self.active_tab.index() - 1
                };
                self.active_tab = Tab::from_index(prev);
                Action::Continue
            },
            _ => {
                self.handle_tab_input(key);
                Action::Continue
            },
        }
    }
}

} // verus!
