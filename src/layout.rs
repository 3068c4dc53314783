//! The layout engine: evaluates each configured line's widgets, colours
//! them through the theme, joins them with separators or powerline glyphs,
//! and widens fill segments to the target width.
use vstd::prelude::*;
use vstd::string::*;

use crate::config::{Config, LineWidgetConfig};
use crate::render::{opt_str, painted, ColorLevel, Renderer};
use crate::text::{clone_opt, str_eq};
use crate::themes::{kind_role, palette, theme_color, theme_index, theme_names, Theme};
use crate::widgets::{
    kind_of, widget_hint, widget_text, SessionData, WidgetKind, WidgetOpts, WidgetRegistry,
};

verus! {

/// Columns the layout fills to for a flex mode on a terminal `w` wide:
/// `full` uses every column, `compact` none, and any other mode
/// (`full-minus-40`) leaves 40 free.
pub open spec fn target_width(mode: Seq<char>, w: nat) -> nat {
    if mode == "full"@ {
        w
    } else if mode == "compact"@ {
        0
    } else if w >= 40 {
        (w - 40) as nat
    } else {
        0
    }
}

/// Widgets whose raw form is a compact number, used when space is short.
pub open spec fn compactable(k: WidgetKind) -> bool {
    match k {
        WidgetKind::ContextLength | WidgetKind::TokensInput | WidgetKind::TokensOutput
        | WidgetKind::TokensCached | WidgetKind::TokensTotal | WidgetKind::LinesChanged
        | WidgetKind::ApiDuration => true,
        _ => false,
    }
}

/// The theme role a colour hint stands for.
pub open spec fn hint_role(h: Seq<char>) -> Seq<char> {
    if h == "green"@ {
        "context_ok"@
    } else if h == "yellow"@ {
        "context_warn"@
    } else if h == "red"@ {
        "context_critical"@
    } else {
        h
    }
}

/// Foreground of a segment: the configured colour, else the widget's hint
/// through the theme, else the widget type's role through the theme.
pub open spec fn seg_fg(
    theme: Theme,
    e: LineWidgetConfig,
    k: WidgetKind,
    hint: Option<Seq<char>>,
) -> Option<Seq<char>> {
    match e.color.deep_view() {
        Some(c) => Some(c),
        None => {
            let from_hint = match hint {
                Some(h) => theme_color(theme, hint_role(h)),
                None => None,
            };
            match from_hint {
                Some(c) => Some(c),
                None => match kind_role(k) {
                    Some(r) => theme_color(theme, r),
                    None => None,
                },
            }
        },
    }
}

/// A visible segment as the layout joins it.
pub struct SegView {
    pub text: Seq<char>,
    pub flex: bool,
    pub pad: Seq<char>,
    pub fg: Option<Seq<char>>,
    pub bg: Option<Seq<char>>,
    pub bold: bool,
    pub merge: bool,
}

/// Everything a line's rendering depends on.
pub struct LayoutCtx {
    pub theme: Theme,
    pub level: ColorLevel,
    pub config: Config,
    pub data: SessionData,
    pub compact: bool,
    pub reg: WidgetRegistry,
}

/// Padding around a segment: its own, else the default in powerline mode.
pub open spec fn seg_pad(cfg: Config, e: LineWidgetConfig) -> Seq<char> {
    match e.padding.deep_view() {
        Some(p) => p,
        None => if cfg.powerline.enabled {
            cfg.default_padding@
        } else {
            Seq::<char>::empty()
        },
    }
}

/// Options a line entry is evaluated with: raw when configured so, or when
/// space is short and the widget has a compact number form.
pub open spec fn entry_opts(e: LineWidgetConfig, compact: bool, k: WidgetKind) -> WidgetOpts {
    WidgetOpts { raw: e.raw_value || (compact && compactable(k)), meta: e.metadata@ }
}

/// The segment an entry contributes, or `None` when its type is unknown or
/// it is hidden.
pub open spec fn entry_seg(ctx: LayoutCtx, e: LineWidgetConfig) -> Option<SegView> {
    match kind_of(e.widget_type@) {
        None => None,
        Some(k) => match widget_text(k, ctx.data, entry_opts(e, ctx.compact, k), ctx.reg) {
            None => None,
            Some(t) => Some(
                SegView {
                    text: t,
                    flex: k == WidgetKind::FlexSeparator,
                    pad: seg_pad(ctx.config, e),
                    fg: seg_fg(ctx.theme, e, k, widget_hint(k, ctx.data)),
                    bg: e.background_color.deep_view(),
                    bold: match e.bold {
                        Some(b) => b,
                        None => ctx.config.global_bold,
                    },
                    merge: e.merge_next,
                },
            ),
        },
    }
}

/// Segments of the first `n` entries of a line, in order.
pub open spec fn line_segs(ctx: LayoutCtx, line: Seq<LineWidgetConfig>, n: int) -> Seq<SegView>
    decreases n,
{
    if n <= 0 {
        Seq::<SegView>::empty()
    } else {
        match entry_seg(ctx, line[n - 1]) {
            Some(s) => line_segs(ctx, line, n - 1).push(s),
            None => line_segs(ctx, line, n - 1),
        }
    }
}

/// `t` repeated `k` times.
pub open spec fn repeat_seq(t: Seq<char>, k: nat) -> Seq<char>
    decreases k,
{
    if k == 0 {
        Seq::<char>::empty()
    } else {
        repeat_seq(t, (k - 1) as nat) + t
    }
}

/// Cells a segment takes before fill is shared out.
pub open spec fn body_width(s: SegView) -> nat {
    if s.flex {
        0
    } else {
        s.pad.len() * 2 + s.text.len()
    }
}

/// A segment's text: the fill text `k` times for a fill segment, else the
/// text between its padding.
pub open spec fn body(s: SegView, k: nat) -> Seq<char> {
    if s.flex {
        repeat_seq(s.text, k)
    } else {
        s.pad + s.text + s.pad
    }
}

/// The joint after segment `p`, before colouring.
pub open spec fn joint_plain(cfg: Config, segs: Seq<SegView>, p: int) -> Seq<char> {
    if segs[p].merge {
        Seq::<char>::empty()
    } else if cfg.powerline.enabled {
        cfg.powerline.separator@
    } else {
        cfg.default_separator@
    }
}

/// The joint after segment `p` as written: a powerline glyph coloured
/// from the two neighbours' backgrounds, or the plain separator in the
/// theme's separator colour (or the left segment's, when inherited).
pub open spec fn joint(theme: Theme, level: ColorLevel, cfg: Config, segs: Seq<SegView>, p: int) -> Seq<
    char,
> {
    if segs[p].merge {
        Seq::<char>::empty()
    } else if cfg.powerline.enabled {
        let inv = cfg.powerline.separator_invert_background;
        painted(
            level,
            cfg.powerline.separator@,
            if inv {
                segs[p + 1].bg
            } else {
                segs[p].bg
            },
            if inv {
                segs[p].bg
            } else {
                segs[p + 1].bg
            },
            false,
        )
    } else {
        painted(
            level,
            cfg.default_separator@,
            if cfg.inherit_separator_colors && segs[p].fg is Some {
                segs[p].fg
            } else {
                theme_color(theme, "separator_fg"@)
            },
            None,
            false,
        )
    }
}

/// Powerline cap text (start or end), when powerline is on and it is set.
pub open spec fn cap_plain(cfg: Config, cap: Option<String>) -> Seq<char> {
    if cfg.powerline.enabled && cap is Some {
        cap.unwrap()@
    } else {
        Seq::<char>::empty()
    }
}

/// A cap as written, in the colour of the neighbouring segment's
/// background.
pub open spec fn cap(level: ColorLevel, cfg: Config, c: Option<String>, bg: Option<Seq<char>>) -> Seq<
    char,
> {
    if cfg.powerline.enabled && c is Some {
        painted(level, c.unwrap()@, bg, None, false)
    } else {
        Seq::<char>::empty()
    }
}

/// Fixed cells of the first `n` segments with their joints.
pub open spec fn fixed_width(cfg: Config, segs: Seq<SegView>, n: int) -> nat
    decreases n,
{
    if n <= 0 {
        0
    } else {
        fixed_width(cfg, segs, n - 1) + body_width(segs[n - 1]) + (if n < segs.len() {
            joint_plain(cfg, segs, n - 1).len()
        } else {
            0
        })
    }
}

/// Number of fill segments among the first `n`.
pub open spec fn flex_count(segs: Seq<SegView>, n: int) -> nat
    decreases n,
{
    if n <= 0 {
        0
    } else {
        flex_count(segs, n - 1) + (if segs[n - 1].flex {
            1nat
        } else {
            0
        })
    }
}

/// Cells given to fill segment number `q` of `nf`: an even share of
/// `rem`, the last one also taking what does not divide.
pub open spec fn fill(rem: nat, nf: nat, q: nat) -> nat {
    if nf == 0 {
        0
    } else {
        rem / nf + (if q + 1 == nf {
            rem % nf
        } else {
            0
        })
    }
}

/// Cells handed to the first `k` of `nf` fill segments.
pub open spec fn fill_sum(rem: nat, nf: nat, k: nat) -> nat
    decreases k,
{
    if k == 0 {
        0
    } else {
        fill_sum(rem, nf, (k - 1) as nat) + fill(rem, nf, (k - 1) as nat)
    }
}

proof fn lemma_fill_sum_before_last(rem: nat, nf: nat, k: nat)
    requires
        nf > 0,
        k < nf,
    ensures
        fill_sum(rem, nf, k) == k * (rem / nf),
    decreases k,
{
    if k > 0 {
        lemma_fill_sum_before_last(rem, nf, (k - 1) as nat);
        let d = rem / nf;
        assert(fill(rem, nf, (k - 1) as nat) == d);
        let km = (k - 1) as nat;
        assert(fill_sum(rem, nf, k) == fill_sum(rem, nf, km) + fill(rem, nf, km));
        assert(k * d == km * d + d) by (nonlinear_arith)
            requires
                km + 1 == k,
        ;
    } else {
        assert(0 * (rem / nf) == 0) by (nonlinear_arith);
    }
}

/// Fill segments share the remaining cells evenly, the last one taking
/// what does not divide, so together they take exactly the remaining cells.
pub proof fn lemma_fill_shares_add_up(rem: nat, nf: nat)
    requires
        nf > 0,
    ensures
        fill_sum(rem, nf, nf) == rem,
        forall|q: nat| q + 1 < nf ==> #[trigger] fill(rem, nf, q) == rem / nf,
        fill(rem, nf, (nf - 1) as nat) == rem / nf + rem % nf,
{
    lemma_fill_sum_before_last(rem, nf, (nf - 1) as nat);
    assert(rem == (nf - 1) * (rem / nf) + rem / nf + rem % nf) by (nonlinear_arith)
        requires
            nf > 0,
    ;
}

/// The first `n` segments with their joints, fill segments widened.
pub open spec fn line_prefix(
    theme: Theme,
    level: ColorLevel,
    cfg: Config,
    segs: Seq<SegView>,
    rem: nat,
    nf: nat,
    n: int,
) -> Seq<char>
    decreases n,
{
    if n <= 0 {
        Seq::<char>::empty()
    } else {
        let s = segs[n - 1];
        let k = if s.flex {
            fill(rem, nf, flex_count(segs, n - 1))
        } else {
            0
        };
        line_prefix(theme, level, cfg, segs, rem, nf, n - 1) + painted(
            level,
            body(s, k),
            s.fg,
            s.bg,
            s.bold,
        ) + (if n < segs.len() {
            joint(theme, level, cfg, segs, n - 1)
        } else {
            Seq::<char>::empty()
        })
    }
}

/// Cells left for fill segments on a line `target` wide.
pub open spec fn remaining(cfg: Config, segs: Seq<SegView>, target: nat) -> nat {
    let used = cap_plain(cfg, cfg.powerline.start_cap).len() + cap_plain(
        cfg,
        cfg.powerline.end_cap,
    ).len() + fixed_width(cfg, segs, segs.len() as int);
    if used < target {
        (target - used) as nat
    } else {
        0
    }
}

/// One output line made of `segs` (at least one).
pub open spec fn line_text(
    theme: Theme,
    level: ColorLevel,
    cfg: Config,
    segs: Seq<SegView>,
    target: nat,
) -> Seq<char> {
    cap(level, cfg, cfg.powerline.start_cap, segs[0].bg) + line_prefix(
        theme,
        level,
        cfg,
        segs,
        remaining(cfg, segs, target),
        flex_count(segs, segs.len() as int),
        segs.len() as int,
    ) + cap(level, cfg, cfg.powerline.end_cap, segs[segs.len() - 1].bg)
}

/// The output lines of the first `n` configured lines: one for each line
/// with a visible segment, none for the others.
pub open spec fn rendered_lines(ctx: LayoutCtx, target: nat, n: int) -> Seq<Seq<char>>
    decreases n,
{
    if n <= 0 {
        Seq::<Seq<char>>::empty()
    } else {
        let line = ctx.config.lines@[n - 1]@;
        let segs = line_segs(ctx, line, line.len() as int);
        if segs.len() > 0 {
            rendered_lines(ctx, target, n - 1).push(
                line_text(ctx.theme, ctx.level, ctx.config, segs, target),
            )
        } else {
            rendered_lines(ctx, target, n - 1)
        }
    }
}

/// Whether some of the first `n` entries of a line contribute a segment.
pub open spec fn has_visible_entry(ctx: LayoutCtx, line: Seq<LineWidgetConfig>, n: int) -> bool {
    exists|j: int| 0 <= j < n && (#[trigger] entry_seg(ctx, line[j])) is Some
}

/// A line yields segments exactly when one of its entries is known and
/// visible.
pub proof fn lemma_segments_iff_visible(ctx: LayoutCtx, line: Seq<LineWidgetConfig>, n: int)
    requires
        0 <= n <= line.len(),
    ensures
        (line_segs(ctx, line, n).len() > 0) == has_visible_entry(ctx, line, n),
    decreases n,
{
    if n > 0 {
        lemma_segments_iff_visible(ctx, line, n - 1);
        if has_visible_entry(ctx, line, n) && entry_seg(ctx, line[n - 1]) is None {
            let j = choose|j: int| 0 <= j < n && (#[trigger] entry_seg(ctx, line[j])) is Some;
            assert(j < n - 1);
        }
        if has_visible_entry(ctx, line, n - 1) {
            let j = choose|j: int| 0 <= j < n - 1 && (#[trigger] entry_seg(ctx, line[j])) is Some;
            assert(0 <= j < n);
        }
        if entry_seg(ctx, line[n - 1]) is Some {
            assert(0 <= n - 1 < n);
        }
    }
}

/// How many of the first `n` configured lines have a visible entry.
pub open spec fn visible_lines(ctx: LayoutCtx, n: int) -> nat
    decreases n,
{
    if n <= 0 {
        0
    } else {
        let line = ctx.config.lines@[n - 1]@;
        visible_lines(ctx, n - 1) + (if has_visible_entry(ctx, line, line.len() as int) {
            1nat
        } else {
            0
        })
    }
}

/// One output line per configured line with a visible entry, and none for
/// a line whose every entry is unknown or hidden.
pub proof fn lemma_one_line_per_visible_line(ctx: LayoutCtx, target: nat, n: int)
    requires
        0 <= n <= ctx.config.lines@.len(),
    ensures
        rendered_lines(ctx, target, n).len() == visible_lines(ctx, n),
    decreases n,
{
    if n > 0 {
        lemma_one_line_per_visible_line(ctx, target, n - 1);
        let line = ctx.config.lines@[n - 1]@;
        lemma_segments_iff_visible(ctx, line, line.len() as int);
    }
}

/// A visible segment.
pub struct Segment {
    pub text: String,
    pub flex: bool,
    pub pad: String,
    pub fg: Option<String>,
    pub bg: Option<String>,
    pub bold: bool,
    pub merge_next: bool,
}

impl View for Segment {
    type V = SegView;

    open spec fn view(&self) -> SegView {
        SegView {
            text: self.text@,
            flex: self.flex,
            pad: self.pad@,
            fg: self.fg.deep_view(),
            bg: self.bg.deep_view(),
            bold: self.bold,
            merge: self.merge_next,
        }
    }
}

/// Views of a run of segments.
pub open spec fn seg_views(v: Seq<Segment>) -> Seq<SegView> {
    Seq::new(v.len(), |i: int| v[i]@)
}

fn compactable_exec(k: WidgetKind) -> (r: bool)
    ensures
        r == compactable(k),
{
    match k {
        WidgetKind::ContextLength | WidgetKind::TokensInput | WidgetKind::TokensOutput
        | WidgetKind::TokensCached | WidgetKind::TokensTotal | WidgetKind::LinesChanged
        | WidgetKind::ApiDuration => true,
        _ => false,
    }
}

fn hint_role_exec(h: &str) -> (r: String)
    ensures
        r@ == hint_role(h@),
{
    if str_eq(h, "green") {
        String::from_str("context_ok")
    } else if str_eq(h, "yellow") {
        String::from_str("context_warn")
    } else if str_eq(h, "red") {
        String::from_str("context_critical")
    } else {
        String::from_str(h)
    }
}

fn as_opt_str(o: &Option<String>) -> (r: Option<&str>)
    ensures
        opt_str(r) == o.deep_view(),
{
    match o {
        Some(s) => Some(s.as_str()),
        None => None,
    }
}

/// Columns to fill for a flex mode on a terminal `w` wide.
pub fn target_width_for(mode: &str, w: u16) -> (r: u64)
    ensures
        r as nat == target_width(mode@, w as nat),
{
    if str_eq(mode, "full") {
        w as u64
    } else if str_eq(mode, "compact") {
        0
    } else if w >= 40 {
        (w - 40) as u64
    } else {
        0
    }
}

fn push_repeated(out: &mut String, t: &str, k: u64)
    ensures
        final(out)@ == old(out)@ + repeat_seq(t@, k as nat),
{
    let ghost start = out@;
    let mut i: u64 = 0;
    while i < k
        invariant
            i <= k,
            out@ == start + repeat_seq(t@, i as nat),
        decreases k - i,
    {
        out.append(t);
        i = i + 1;
        assert(out@ =~= start + repeat_seq(t@, i as nat));
    }
}

fn fill_exec(rem: u64, nf: u64, q: u64) -> (r: u64)
    ensures
        r as nat == fill(rem as nat, nf as nat, q as nat),
{
    if nf == 0 {
        0
    } else {
        let share = rem / nf;
        let extra = if q == nf - 1 {
            rem % nf
        } else {
            0
        };
        assert(share + extra <= rem) by (nonlinear_arith)
            requires
                nf > 0,
                share == rem / nf,
                extra <= rem % nf,
        ;
        share + extra
    }
}

/// Turns configured lines into text lines.
pub struct LayoutEngine {
    pub renderer: Renderer,
    pub theme: Theme,
}

impl LayoutEngine {
    /// An engine drawing with `renderer` in the theme `config` names.
    pub fn new(config: &Config, renderer: &Renderer) -> (r: LayoutEngine)
        ensures
            r.renderer == *renderer,
            r.theme.name == theme_names()[theme_index(config.theme@)],
            r.theme.colors@ == palette(theme_index(config.theme@)),
    {
        LayoutEngine { renderer: *renderer, theme: Theme::get(config.theme.as_str()) }
    }

    pub open spec fn ctx(
        &self,
        config: Config,
        data: SessionData,
        compact: bool,
        reg: WidgetRegistry,
    ) -> LayoutCtx {
        LayoutCtx { theme: self.theme, level: self.renderer.level, config, data, compact, reg }
    }

    fn resolve_fg(&self, e: &LineWidgetConfig, k: WidgetKind, hint: &Option<String>) -> (r: Option<
        String,
    >)
        requires
            kind_of(e.widget_type@) == Some(k),
        ensures
            r.deep_view() == seg_fg(self.theme, *e, k, hint.deep_view()),
    {
        if let Some(c) = &e.color {
            return Some(c.clone());
        }
        let from_hint = match hint {
            Some(h) => {
                let role = hint_role_exec(h.as_str());
                self.theme.color(role.as_str())
            },
            None => None,
        };
        match from_hint {
            Some(c) => Some(c),
            None => match self.theme.role_for_widget(e.widget_type.as_str()) {
                Some(r) => self.theme.color(r.as_str()),
                None => None,
            },
        }
    }

    fn entry_segment(
        &self,
        e: &LineWidgetConfig,
        data: &SessionData,
        config: &Config,
        registry: &WidgetRegistry,
        compact: bool,
    ) -> (r: Option<Segment>)
        ensures
            entry_seg(self.ctx(*config, *data, compact, *registry), *e) == (match r {
                Some(s) => Some(s@),
                None => None,
            }),
    {
        match WidgetKind::from_name(e.widget_type.as_str()) {
            None => None,
            Some(k) => {
                let mut wc = Config::to_widget_config(e);
                if compact && compactable_exec(k) {
                    wc.raw_value = true;
                }
                let out = registry.render_kind(k, data, &wc);
                assert(crate::widgets::opts(wc) == entry_opts(*e, compact, k));
                if !out.visible {
                    return None;
                }
                let fg = self.resolve_fg(e, k, &out.color_hint);
                let pad = match &e.padding {
                    Some(p) => p.clone(),
                    None => if config.powerline.enabled {
                        config.default_padding.clone()
                    } else {
                        String::new()
                    },
                };
                let bold = match e.bold {
                    Some(b) => b,
                    None => config.global_bold,
                };
                Some(
                    Segment {
                        text: out.text,
                        flex: k == WidgetKind::FlexSeparator,
                        pad,
                        fg,
                        bg: clone_opt(&e.background_color),
                        bold,
                        merge_next: e.merge_next,
                    },
                )
            },
        }
    }

    fn collect_segments(
        &self,
        line: &Vec<LineWidgetConfig>,
        data: &SessionData,
        config: &Config,
        registry: &WidgetRegistry,
        compact: bool,
    ) -> (r: Vec<Segment>)
        ensures
            seg_views(r@) == line_segs(
                self.ctx(*config, *data, compact, *registry),
                line@,
                line@.len() as int,
            ),
    {
        let ghost ctx = self.ctx(*config, *data, compact, *registry);
        let mut segs: Vec<Segment> = Vec::new();
        let n = line.len();
        let mut i: usize = 0;
        while i < n
            invariant
                n == line@.len(),
                i <= n,
                ctx == self.ctx(*config, *data, compact, *registry),
                seg_views(segs@) == line_segs(ctx, line@, i as int),
            decreases n - i,
        {
            let ghost before = segs@;
            match self.entry_segment(&line[i], data, config, registry, compact) {
                Some(s) => {
                    segs.push(s);
                    assert(seg_views(segs@) =~= seg_views(before).push(segs@[before.len() as int]@));
                },
                None => {},
            }
            i = i + 1;
        }
        segs
    }

    fn joint_string(&self, config: &Config, segs: &Vec<Segment>, p: usize) -> (r: String)
        requires
            p + 1 < segs@.len(),
        ensures
            r@ == joint(self.theme, self.renderer.level, *config, seg_views(segs@), p as int),
    {
        let ghost sv = seg_views(segs@);
        let n = segs.len();
        let after = p + 1;
        assert(sv[p as int] == segs@[p as int]@);
        assert(sv[after as int] == segs@[after as int]@);
        assert(n > after);
        if segs[p].merge_next {
            String::new()
        } else if config.powerline.enabled {
            let inv = config.powerline.separator_invert_background;
            let left = as_opt_str(&segs[p].bg);
            let right = as_opt_str(&segs[after].bg);
            if inv {
                self.renderer.paint(config.powerline.separator.as_str(), right, left, false)
            } else {
                self.renderer.paint(config.powerline.separator.as_str(), left, right, false)
            }
        } else {
            let color = if config.inherit_separator_colors && segs[p].fg.is_some() {
                clone_opt(&segs[p].fg)
            } else {
                self.theme.color("separator_fg")
            };
            self.renderer.paint(config.default_separator.as_str(), as_opt_str(&color), None, false)
        }
    }

    fn joint_width(&self, config: &Config, segs: &Vec<Segment>, p: usize) -> (r: usize)
        requires
            p < segs@.len(),
        ensures
            r == joint_plain(*config, seg_views(segs@), p as int).len(),
    {
        let ghost sv = seg_views(segs@);
        assert(sv[p as int] == segs@[p as int]@);
        if segs[p].merge_next {
            0
        } else if config.powerline.enabled {
            config.powerline.separator.as_str().unicode_len()
        } else {
            config.default_separator.as_str().unicode_len()
        }
    }

    fn cap_string(&self, config: &Config, c: &Option<String>, bg: &Option<String>) -> (r: String)
        ensures
            r@ == cap(self.renderer.level, *config, *c, bg.deep_view()),
    {
        match c {
            Some(t) => if config.powerline.enabled {
                self.renderer.paint(t.as_str(), as_opt_str(bg), None, false)
            } else {
                String::new()
            },
            None => String::new(),
        }
    }

    fn cap_width(config: &Config, c: &Option<String>) -> (r: usize)
        ensures
            r == cap_plain(*config, *c).len(),
    {
        match c {
            Some(t) => if config.powerline.enabled {
                t.as_str().unicode_len()
            } else {
                0
            },
            None => 0,
        }
    }

    fn piece_string(&self, seg: &Segment, k: u64) -> (r: String)
        ensures
            r@ == painted(self.renderer.level, body(seg@, k as nat), seg@.fg, seg@.bg, seg@.bold),
    {
        let mut b = String::new();
        if seg.flex {
            push_repeated(&mut b, seg.text.as_str(), k);
        } else {
            b.append(seg.pad.as_str());
            b.append(seg.text.as_str());
            b.append(seg.pad.as_str());
        }
        assert(b@ =~= body(seg@, k as nat));
        self.renderer.paint(b.as_str(), as_opt_str(&seg.fg), as_opt_str(&seg.bg), seg.bold)
    }

    /// Joins the segments of one line, widening fill segments to `target`.
    fn compose(&self, segs: &Vec<Segment>, config: &Config, target: u64) -> (r: String)
        requires
            segs@.len() > 0,
        ensures
            r@ == line_text(self.theme, self.renderer.level, *config, seg_views(segs@), target as nat),
    {
        let ghost sv = seg_views(segs@);
        let n = segs.len();
        let start_w = Self::cap_width(config, &config.powerline.start_cap);
        let end_w = Self::cap_width(config, &config.powerline.end_cap);
        let ghost caps = start_w as nat + end_w as nat;
        // Cells used so far, counted up to `target` only.
        let mut used: u64 = if (start_w as u128) + (end_w as u128) < target as u128 {
            ((start_w as u128) + (end_w as u128)) as u64
        } else {
            target
        };
        let mut nf: u64 = 0;
        let mut p: usize = 0;
        while p < n
            invariant
                n == segs@.len(),
                sv == seg_views(segs@),
                p <= n,
                nf == flex_count(sv, p as int),
                nf <= p,
                used as nat == if caps + fixed_width(*config, sv, p as int) < target {
                    caps + fixed_width(*config, sv, p as int)
                } else {
                    target as nat
                },
            decreases n - p,
        {
            assert(sv[p as int] == segs@[p as int]@);
            let seg = &segs[p];
            let w: u128 = if seg.flex {
                0
            } else {
                (seg.pad.as_str().unicode_len() as u128) * 2 + seg.text.as_str().unicode_len() as u128
            };
            let j: u128 = if p + 1 < n {
                self.joint_width(config, segs, p) as u128
            } else {
                0
            };
            used = if (used as u128) + w + j < target as u128 {
                ((used as u128) + w + j) as u64
            } else {
                target
            };
            if seg.flex {
                nf = nf + 1;
            }
            p = p + 1;
        }
        let rem: u64 = target - used;
        assert(rem as nat == remaining(*config, sv, target as nat));
        let first_bg = &segs[0].bg;
        let last_bg = &segs[n - 1].bg;
        assert(sv[0] == segs@[0]@);
        assert(sv[n - 1] == segs@[n - 1]@);
        let mut out = self.cap_string(config, &config.powerline.start_cap, first_bg);
        let ghost head = out@;
        let mut q: u64 = 0;
        let mut p: usize = 0;
        while p < n
            invariant
                n == segs@.len(),
                sv == seg_views(segs@),
                p <= n,
                q == flex_count(sv, p as int),
                q <= p,
                nf == flex_count(sv, n as int),
                rem <= target,
                out@ == head + line_prefix(self.theme, self.renderer.level, *config, sv, rem as nat, nf as nat, p as int),
            decreases n - p,
        {
            assert(sv[p as int] == segs@[p as int]@);
            let seg = &segs[p];
            let k: u64 = if seg.flex {
                fill_exec(rem, nf, q)
            } else {
                0
            };
            if seg.flex {
                q = q + 1;
            }
            let piece = self.piece_string(seg, k);
            out.append(piece.as_str());
            if p + 1 < n {
                let jt = self.joint_string(config, segs, p);
                out.append(jt.as_str());
            }
            p = p + 1;
            assert(out@ =~= head + line_prefix(self.theme, self.renderer.level, *config, sv, rem as nat, nf as nat, p as int));
        }
        let tail = self.cap_string(config, &config.powerline.end_cap, last_bg);
        out.append(tail.as_str());
        out
    }

    /// The text lines for `data`: one per configured line that shows at
    /// least one widget, in order. Unknown and hidden widgets are skipped.
    pub fn render(&self, data: &SessionData, config: &Config, registry: &WidgetRegistry) -> (r: Vec<
        String,
    >)
        ensures
            r.deep_view() == rendered_lines(
                self.ctx(
                    *config,
                    *data,
                    target_width(config.flex_mode@, registry.terminal_width as nat)
                        < config.compact_threshold,
                    *registry,
                ),
                target_width(config.flex_mode@, registry.terminal_width as nat),
                config.lines@.len() as int,
            ),
    {
        let target = target_width_for(config.flex_mode.as_str(), registry.terminal_width);
        let compact = target < config.compact_threshold as u64;
        let ghost ctx = self.ctx(*config, *data, compact, *registry);
        let mut out: Vec<String> = Vec::new();
        let n = config.lines.len();
        let mut i: usize = 0;
        while i < n
            invariant
                n == config.lines@.len(),
                i <= n,
                ctx == self.ctx(*config, *data, compact, *registry),
                out.deep_view() == rendered_lines(ctx, target as nat, i as int),
            decreases n - i,
        {
            let segs = self.collect_segments(&config.lines[i], data, config, registry, compact);
            let ghost before = out.deep_view();
            if segs.len() > 0 {
                let line = self.compose(&segs, config, target);
                out.push(line);
                assert(out.deep_view() =~= before.push(out@[before.len() as int]@));
            }
            i = i + 1;
        }
        out
    }
}


/// Whether `s` holds no escape character.
pub open spec fn no_escape(s: Seq<char>) -> bool {
    forall|i: int| 0 <= i < s.len() ==> s[i] != '\x1b'
}

proof fn lemma_concat_no_escape(a: Seq<char>, b: Seq<char>)
    requires
        no_escape(a),
        no_escape(b),
    ensures
        no_escape(a + b),
{
    assert forall|i: int| 0 <= i < (a + b).len() implies (a + b)[i] != '\x1b' by {
        if i < a.len() {
            assert((a + b)[i] == a[i]);
        } else {
            assert((a + b)[i] == b[i - a.len()]);
        }
    }
}

proof fn lemma_repeat_no_escape(t: Seq<char>, k: nat)
    requires
        no_escape(t),
    ensures
        no_escape(repeat_seq(t, k)),
    decreases k,
{
    if k > 0 {
        lemma_repeat_no_escape(t, (k - 1) as nat);
        lemma_concat_no_escape(repeat_seq(t, (k - 1) as nat), t);
    }
}

/// Segments and separators of a line hold no escape character.
pub open spec fn plain_parts(cfg: Config, segs: Seq<SegView>) -> bool {
    &&& forall|i: int| 0 <= i < segs.len() ==> no_escape(#[trigger] segs[i].text) && no_escape(segs[i].pad)
    &&& no_escape(cfg.default_separator@)
    &&& no_escape(cfg.powerline.separator@)
    &&& (cfg.powerline.start_cap matches Some(c) ==> no_escape(c@))
    &&& (cfg.powerline.end_cap matches Some(c) ==> no_escape(c@))
}

proof fn lemma_prefix_no_escape(
    theme: Theme,
    cfg: Config,
    segs: Seq<SegView>,
    rem: nat,
    nf: nat,
    n: int,
)
    requires
        plain_parts(cfg, segs),
        n <= segs.len(),
    ensures
        no_escape(line_prefix(theme, ColorLevel::NoColor, cfg, segs, rem, nf, n)),
    decreases n,
{
    if n > 0 {
        lemma_prefix_no_escape(theme, cfg, segs, rem, nf, n - 1);
        let s = segs[n - 1];
        let k = if s.flex {
            fill(rem, nf, flex_count(segs, n - 1))
        } else {
            0
        };
        assert(no_escape(s.text) && no_escape(s.pad));
        if s.flex {
            lemma_repeat_no_escape(s.text, k);
        } else {
            lemma_concat_no_escape(s.pad, s.text);
            lemma_concat_no_escape(s.pad + s.text, s.pad);
        }
        let prev = line_prefix(theme, ColorLevel::NoColor, cfg, segs, rem, nf, n - 1);
        let piece = painted(ColorLevel::NoColor, body(s, k), s.fg, s.bg, s.bold);
        assert(piece == body(s, k));
        lemma_concat_no_escape(prev, piece);
        let j = if n < segs.len() {
            joint(theme, ColorLevel::NoColor, cfg, segs, n - 1)
        } else {
            Seq::<char>::empty()
        };
        assert(no_escape(j));
        lemma_concat_no_escape(prev + piece, j);
    }
}

/// With colour off, a rendered line holds an escape character only where
/// a widget text, padding, separator or cap holds one: colours that the
/// configuration asks for never add one.
pub proof fn lemma_no_color_line_is_plain(
    theme: Theme,
    cfg: Config,
    segs: Seq<SegView>,
    target: nat,
)
    requires
        segs.len() > 0,
        plain_parts(cfg, segs),
    ensures
        no_escape(line_text(theme, ColorLevel::NoColor, cfg, segs, target)),
{
    let rem = remaining(cfg, segs, target);
    let nf = flex_count(segs, segs.len() as int);
    lemma_prefix_no_escape(theme, cfg, segs, rem, nf, segs.len() as int);
    let head = cap(ColorLevel::NoColor, cfg, cfg.powerline.start_cap, segs[0].bg);
    let tail = cap(ColorLevel::NoColor, cfg, cfg.powerline.end_cap, segs[segs.len() - 1].bg);
    assert(no_escape(head));
    assert(no_escape(tail));
    let body_text = line_prefix(theme, ColorLevel::NoColor, cfg, segs, rem, nf, segs.len() as int);
    lemma_concat_no_escape(head, body_text);
    lemma_concat_no_escape(head + body_text, tail);
}

} // verus!
