//! Widgets: stateless functions from a session snapshot and a per-instance
//! configuration to an optional piece of text, dispatched by type name.
use vstd::prelude::*;
use vstd::string::*;

use crate::text::{
    bar, clone_opt, compact, dec, duration_text, grouped, push_bar, push_compact,
    push_decimal, push_duration, push_grouped, push_usd, round_half_even, str_eq, usd,
};

pub mod data;

pub use data::SessionData;

verus! {

/// First value stored under `k`, if any.
pub open spec fn lookup(es: Seq<(Seq<char>, Seq<char>)>, k: Seq<char>) -> Option<Seq<char>>
    decreases es.len(),
{
    if es.len() == 0 {
        None
    } else if es[0].0 == k {
        Some(es[0].1)
    } else {
        lookup(es.drop_first(), k)
    }
}

/// No key occurs twice.
pub open spec fn keys_unique(es: Seq<(Seq<char>, Seq<char>)>) -> bool {
    forall|i: int, j: int| 0 <= i < j < es.len() ==> (#[trigger] es[i]).0 != (#[trigger] es[j]).0
}

proof fn lemma_lookup_at(es: Seq<(Seq<char>, Seq<char>)>, k: Seq<char>, i: int)
    requires
        0 <= i < es.len(),
        es[i].0 == k,
        forall|j: int| 0 <= j < i ==> (#[trigger] es[j]).0 != k,
    ensures
        lookup(es, k) == Some(es[i].1),
    decreases i,
{
    if i > 0 {
        let rest = es.drop_first();
        assert(es[0].0 != k);
        assert forall|j: int| 0 <= j < i - 1 implies (#[trigger] rest[j]).0 != k by {
            assert(rest[j] == es[j + 1]);
        }
        lemma_lookup_at(rest, k, i - 1);
    }
}

proof fn lemma_lookup_absent(es: Seq<(Seq<char>, Seq<char>)>, k: Seq<char>)
    requires
        forall|j: int| 0 <= j < es.len() ==> (#[trigger] es[j]).0 != k,
    ensures
        lookup(es, k) is None,
    decreases es.len(),
{
    if es.len() > 0 {
        let rest = es.drop_first();
        assert(es[0].0 != k);
        assert forall|j: int| 0 <= j < rest.len() implies (#[trigger] rest[j]).0 != k by {
            assert(rest[j] == es[j + 1]);
        }
        lemma_lookup_absent(rest, k);
    }
}

/// With unique keys, the value stored under `k` is the one at the entry
/// holding `k`, if any.
proof fn lemma_lookup_unique(es: Seq<(Seq<char>, Seq<char>)>, k: Seq<char>)
    requires
        keys_unique(es),
    ensures
        forall|i: int| 0 <= i < es.len() && (#[trigger] es[i]).0 == k ==> lookup(es, k) == Some(es[i].1),
        (forall|i: int| 0 <= i < es.len() ==> (#[trigger] es[i]).0 != k) ==> lookup(es, k) is None,
{
    assert forall|i: int| 0 <= i < es.len() && (#[trigger] es[i]).0 == k implies lookup(es, k) == Some(es[i].1) by {
        assert forall|j: int| 0 <= j < i implies (#[trigger] es[j]).0 != k by {
            assert(es[j].0 != es[i].0);
        }
        lemma_lookup_at(es, k, i);
    }
    if forall|i: int| 0 <= i < es.len() ==> (#[trigger] es[i]).0 != k {
        lemma_lookup_absent(es, k);
    }
}

/// String-keyed widget options (`bar`, `inverse`, `text`, `char`, ...),
/// each key at most once.
#[derive(Debug)]
pub struct Metadata {
    entries: Vec<(String, String)>,
}

impl View for Metadata {
    type V = Seq<(Seq<char>, Seq<char>)>;

    closed spec fn view(&self) -> Seq<(Seq<char>, Seq<char>)> {
        self.entries.deep_view()
    }
}

impl Clone for Metadata {
    fn clone(&self) -> Self {
        self.copy()
    }
}

impl Metadata {
    #[verifier::type_invariant]
    spec fn unique_keys(&self) -> bool {
        keys_unique(self.entries.deep_view())
    }

    pub fn new() -> (r: Metadata)
        ensures
            r@ == Seq::<(Seq<char>, Seq<char>)>::empty(),
    {
        let entries: Vec<(String, String)> = Vec::new();
        assert(entries.deep_view() =~= Seq::<(Seq<char>, Seq<char>)>::empty());
        Metadata { entries }
    }

    fn position(&self, key: &str) -> (r: Option<usize>)
        ensures
            r matches Some(i) ==> i < self@.len() && self@[i as int].0 == key@,
            r is None ==> forall|j: int| 0 <= j < self@.len() ==> (#[trigger] self@[j]).0 != key@,
    {
        let n = self.entries.len();
        let mut i: usize = 0;
        while i < n
            invariant
                n == self.entries.len(),
                n == self@.len(),
                i <= n,
                forall|j: int| 0 <= j < i ==> (#[trigger] self@[j]).0 != key@,
            decreases n - i,
        {
            if str_eq(self.entries[i].0.as_str(), key) {
                return Some(i);
            }
            i = i + 1;
        }
        None
    }

    /// Stores `value` under `key`, replacing what was stored there.
    pub fn insert(&mut self, key: String, value: String)
        ensures
            lookup(final(self)@, key@) == Some(value@),
            forall|k: Seq<char>| k != key@ ==> lookup(final(self)@, k) == lookup(old(self)@, k),
    {
        proof {
            use_type_invariant(&*self);
        }
        let ghost before = self@;
        let ghost kv = key@;
        let ghost vv = value@;
        let pos = self.position(key.as_str());
        let Metadata { entries: mut es } = self.copy();
        match pos {
            Some(i) => {
                es.remove(i);
                es.insert(i, (key, value));
                assert(es.deep_view() =~= before.update(i as int, (kv, vv)));
            },
            None => {
                es.push((key, value));
                assert(es.deep_view() =~= before.push((kv, vv)));
            },
        }
        let ghost after = es.deep_view();
        assert forall|a: int, b: int| 0 <= a < b < after.len() implies (#[trigger] after[a]).0
            != (#[trigger] after[b]).0 by {
            match pos {
                Some(i) => {
                    assert(after[a].0 == before[a].0);
                    assert(after[b].0 == before[b].0);
                },
                None => {
                    if b == before.len() {
                        assert(after[a] == before[a]);
                    } else {
                        assert(after[a] == before[a]);
                        assert(after[b] == before[b]);
                    }
                },
            }
        }
        proof {
            lemma_lookup_unique(before, kv);
            lemma_lookup_unique(after, kv);
            let idx: int = match pos {
                Some(i) => i as int,
                None => before.len() as int,
            };
            assert(after[idx] == (kv, vv));
            assert forall|k: Seq<char>| k != kv implies lookup(after, k) == lookup(before, k) by {
                lemma_lookup_unique(before, k);
                lemma_lookup_unique(after, k);
                if exists|m: int| 0 <= m < before.len() && (#[trigger] before[m]).0 == k {
                    let m = choose|m: int| 0 <= m < before.len() && (#[trigger] before[m]).0 == k;
                    assert(after[m] == before[m]);
                } else {
                    assert forall|j: int| 0 <= j < after.len() implies (#[trigger] after[j]).0 != k by {
                        if j != idx {
                            assert(after[j] == before[j]);
                        }
                    }
                }
            }
        }
        *self = Metadata { entries: es };
    }

    /// The value stored under `key`.
    pub fn get(&self, key: &str) -> (r: Option<String>)
        ensures
            r.deep_view() == lookup(self@, key@),
    {
        let n = self.entries.len();
        let mut i: usize = 0;
        assert(self@.subrange(0, n as int) =~= self@);
        while i < n
            invariant
                n == self.entries.len(),
                n == self@.len(),
                i <= n,
                lookup(self@, key@) == lookup(self@.subrange(i as int, n as int), key@),
            decreases n - i,
        {
            let ghost rest = self@.subrange(i as int, n as int);
            assert(rest[0] == self@[i as int]);
            assert(rest.drop_first() =~= self@.subrange(i + 1, n as int));
            if str_eq(self.entries[i].0.as_str(), key) {
                return Some(self.entries[i].1.clone());
            }
            i = i + 1;
        }
        None
    }

    /// A copy holding the same entries.
    pub fn copy(&self) -> (r: Metadata)
        ensures
            r@ == self@,
    {
        let mut entries: Vec<(String, String)> = Vec::new();
        let n = self.entries.len();
        let mut i: usize = 0;
        while i < n
            invariant
                n == self.entries.len(),
                i <= n,
                entries@.len() == i,
                forall|j: int|
                    0 <= j < i ==> (#[trigger] entries@[j]).0@ == self.entries@[j].0@
                        && entries@[j].1@ == self.entries@[j].1@,
            decreases n - i,
        {
            let k = self.entries[i].0.clone();
            let v = self.entries[i].1.clone();
            entries.push((k, v));
            i = i + 1;
        }
        proof {
            use_type_invariant(self);
        }
        assert(entries.deep_view() =~= self.entries.deep_view());
        let r = Metadata { entries };
        r
    }

    /// The stored entries, each key once.
    pub fn pairs(&self) -> (r: Vec<(String, String)>)
        ensures
            r.deep_view() == self@,
            keys_unique(r.deep_view()),
    {
        let c = self.copy();
        proof {
            use_type_invariant(&c);
        }
        c.entries
    }

    /// Whether `key` is set to `"true"`.
    pub fn flag(&self, key: &str) -> (r: bool)
        ensures
            r == (lookup(self@, key@) == Some("true"@)),
    {
        match self.get(key) {
            Some(v) => str_eq(v.as_str(), "true"),
            None => false,
        }
    }
}

/// Settings of one widget instance.
#[derive(Clone, Debug)]
pub struct WidgetConfig {
    pub widget_type: String,
    pub id: String,
    pub color: Option<String>,
    pub background_color: Option<String>,
    pub bold: Option<bool>,
    /// Compact / unlocalised rendering.
    pub raw_value: bool,
    pub padding: Option<String>,
    /// No separator between this widget and the next.
    pub merge_next: bool,
    pub metadata: Metadata,
}

/// What one widget produced.
#[derive(Clone, Debug)]
pub struct WidgetOutput {
    pub visible: bool,
    pub text: String,
    /// A colour role the layout applies when no colour is configured.
    pub color_hint: Option<String>,
    /// Width of `text` in cells; `0` on a fill segment whose width the
    /// layout decides.
    pub display_width: usize,
}

/// What a widget's text depends on in its configuration: the raw flag and
/// the options.
pub struct WidgetOpts {
    pub raw: bool,
    pub meta: Seq<(Seq<char>, Seq<char>)>,
}

/// The options of a widget configuration.
pub open spec fn opts(c: WidgetConfig) -> WidgetOpts {
    WidgetOpts { raw: c.raw_value, meta: c.metadata@ }
}

/// Whether option `key` is `"true"`.
pub open spec fn flag(o: WidgetOpts, key: Seq<char>) -> bool {
    lookup(o.meta, key) == Some("true"@)
}

/// Every widget type the registry knows.
#[derive(Clone, Copy, Debug, PartialEq, Eq, Structural)]
pub enum WidgetKind {
    Model,
    ContextPercentage,
    ContextLength,
    TokensInput,
    TokensOutput,
    TokensCached,
    TokensTotal,
    SessionCost,
    SessionDuration,
    BlockTimer,
    GitBranch,
    GitStatus,
    GitWorktree,
    Cwd,
    LinesChanged,
    Version,
    SessionId,
    VimMode,
    AgentName,
    OutputStyle,
    ExceedsTokens,
    ApiDuration,
    CustomCommand,
    CustomText,
    Separator,
    FlexSeparator,
    TerminalWidth,
}

/// The type name a widget kind is configured by.
pub open spec fn kind_name(k: WidgetKind) -> Seq<char> {
    match k {
        WidgetKind::Model => "model"@,
        WidgetKind::ContextPercentage => "context-percentage"@,
        WidgetKind::ContextLength => "context-length"@,
        WidgetKind::TokensInput => "tokens-input"@,
        WidgetKind::TokensOutput => "tokens-output"@,
        WidgetKind::TokensCached => "tokens-cached"@,
        WidgetKind::TokensTotal => "tokens-total"@,
        WidgetKind::SessionCost => "session-cost"@,
        WidgetKind::SessionDuration => "session-duration"@,
        WidgetKind::BlockTimer => "block-timer"@,
        WidgetKind::GitBranch => "git-branch"@,
        WidgetKind::GitStatus => "git-status"@,
        WidgetKind::GitWorktree => "git-worktree"@,
        WidgetKind::Cwd => "cwd"@,
        WidgetKind::LinesChanged => "lines-changed"@,
        WidgetKind::Version => "version"@,
        WidgetKind::SessionId => "session-id"@,
        WidgetKind::VimMode => "vim-mode"@,
        WidgetKind::AgentName => "agent-name"@,
        WidgetKind::OutputStyle => "output-style"@,
        WidgetKind::ExceedsTokens => "exceeds-tokens"@,
        WidgetKind::ApiDuration => "api-duration"@,
        WidgetKind::CustomCommand => "custom-command"@,
        WidgetKind::CustomText => "custom-text"@,
        WidgetKind::Separator => "separator"@,
        WidgetKind::FlexSeparator => "flex-separator"@,
        WidgetKind::TerminalWidth => "terminal-width"@,
    }
}

/// The widget kind a type name selects, if any.
pub open spec fn kind_of(name: Seq<char>) -> Option<WidgetKind> {
    if name == "model"@ {
        Some(WidgetKind::Model)
    } else if name == "context-percentage"@ {
        Some(WidgetKind::ContextPercentage)
    } else if name == "context-length"@ {
        Some(WidgetKind::ContextLength)
    } else if name == "tokens-input"@ {
        Some(WidgetKind::TokensInput)
    } else if name == "tokens-output"@ {
        Some(WidgetKind::TokensOutput)
    } else if name == "tokens-cached"@ {
        Some(WidgetKind::TokensCached)
    } else if name == "tokens-total"@ {
        Some(WidgetKind::TokensTotal)
    } else if name == "session-cost"@ {
        Some(WidgetKind::SessionCost)
    } else if name == "session-duration"@ {
        Some(WidgetKind::SessionDuration)
    } else if name == "block-timer"@ {
        Some(WidgetKind::BlockTimer)
    } else if name == "git-branch"@ {
        Some(WidgetKind::GitBranch)
    } else if name == "git-status"@ {
        Some(WidgetKind::GitStatus)
    } else if name == "git-worktree"@ {
        Some(WidgetKind::GitWorktree)
    } else if name == "cwd"@ {
        Some(WidgetKind::Cwd)
    } else if name == "lines-changed"@ {
        Some(WidgetKind::LinesChanged)
    } else if name == "version"@ {
        Some(WidgetKind::Version)
    } else if name == "session-id"@ {
        Some(WidgetKind::SessionId)
    } else if name == "vim-mode"@ {
        Some(WidgetKind::VimMode)
    } else if name == "agent-name"@ {
        Some(WidgetKind::AgentName)
    } else if name == "output-style"@ {
        Some(WidgetKind::OutputStyle)
    } else if name == "exceeds-tokens"@ {
        Some(WidgetKind::ExceedsTokens)
    } else if name == "api-duration"@ {
        Some(WidgetKind::ApiDuration)
    } else if name == "custom-command"@ {
        Some(WidgetKind::CustomCommand)
    } else if name == "custom-text"@ {
        Some(WidgetKind::CustomText)
    } else if name == "separator"@ {
        Some(WidgetKind::Separator)
    } else if name == "flex-separator"@ {
        Some(WidgetKind::FlexSeparator)
    } else if name == "terminal-width"@ {
        Some(WidgetKind::TerminalWidth)
    } else {
        None
    }
}

impl WidgetKind {
    /// The kind selected by a type name.
    pub fn from_name(name: &str) -> (r: Option<WidgetKind>)
        ensures
            r == kind_of(name@),
    {
        if str_eq(name, "model") {
            Some(WidgetKind::Model)
        } else if str_eq(name, "context-percentage") {
            Some(WidgetKind::ContextPercentage)
        } else if str_eq(name, "context-length") {
            Some(WidgetKind::ContextLength)
        } else if str_eq(name, "tokens-input") {
            Some(WidgetKind::TokensInput)
        } else if str_eq(name, "tokens-output") {
            Some(WidgetKind::TokensOutput)
        } else if str_eq(name, "tokens-cached") {
            Some(WidgetKind::TokensCached)
        } else if str_eq(name, "tokens-total") {
            Some(WidgetKind::TokensTotal)
        } else if str_eq(name, "session-cost") {
            Some(WidgetKind::SessionCost)
        } else if str_eq(name, "session-duration") {
            Some(WidgetKind::SessionDuration)
        } else if str_eq(name, "block-timer") {
            Some(WidgetKind::BlockTimer)
        } else if str_eq(name, "git-branch") {
            Some(WidgetKind::GitBranch)
        } else if str_eq(name, "git-status") {
            Some(WidgetKind::GitStatus)
        } else if str_eq(name, "git-worktree") {
            Some(WidgetKind::GitWorktree)
        } else if str_eq(name, "cwd") {
            Some(WidgetKind::Cwd)
        } else if str_eq(name, "lines-changed") {
            Some(WidgetKind::LinesChanged)
        } else if str_eq(name, "version") {
            Some(WidgetKind::Version)
        } else if str_eq(name, "session-id") {
            Some(WidgetKind::SessionId)
        } else if str_eq(name, "vim-mode") {
            Some(WidgetKind::VimMode)
        } else if str_eq(name, "agent-name") {
            Some(WidgetKind::AgentName)
        } else if str_eq(name, "output-style") {
            Some(WidgetKind::OutputStyle)
        } else if str_eq(name, "exceeds-tokens") {
            Some(WidgetKind::ExceedsTokens)
        } else if str_eq(name, "api-duration") {
            Some(WidgetKind::ApiDuration)
        } else if str_eq(name, "custom-command") {
            Some(WidgetKind::CustomCommand)
        } else if str_eq(name, "custom-text") {
            Some(WidgetKind::CustomText)
        } else if str_eq(name, "separator") {
            Some(WidgetKind::Separator)
        } else if str_eq(name, "flex-separator") {
            Some(WidgetKind::FlexSeparator)
        } else if str_eq(name, "terminal-width") {
            Some(WidgetKind::TerminalWidth)
        } else {
            None
        }
    }
}

/// Length of one rolling usage block: five hours.
pub const BLOCK_MS: u64 = 18_000_000;

/// A missing count reads as zero.
pub open spec fn or_zero(o: Option<u64>) -> nat {
    match o {
        Some(v) => v as nat,
        None => 0,
    }
}

pub open spec fn model_text(d: SessionData, o: WidgetOpts) -> Option<Seq<char>> {
    match d.model {
        Some(m) => match m.display_name {
            Some(n) => if o.raw && m.id is Some {
                Some(m.id.unwrap()@)
            } else {
                Some(n@)
            },
            None => None,
        },
        None => None,
    }
}

/// Colour hint of the context gauge: a step function of the used share
/// (millionths of a percent).
pub open spec fn context_hint(p: nat) -> Seq<char> {
    if p < 50_000_000 {
        "green"@
    } else if p < 80_000_000 {
        "yellow"@
    } else {
        "red"@
    }
}

/// The number shown by the context gauge: the used share rounded, or with
/// `inverse` the remaining share rounded down.
pub open spec fn context_number(p: nat, inverse: bool) -> nat {
    if inverse {
        if p <= 100_000_000 {
            ((100_000_000 - p) as nat) / 1_000_000
        } else {
            0
        }
    } else {
        round_half_even(p, 1_000_000)
    }
}

/// Full cells of the context bar: the used share in tenths, rounded.
pub open spec fn context_cells(p: nat) -> nat {
    let f = round_half_even(p, 10_000_000);
    if f > 10 {
        10
    } else {
        f
    }
}

pub open spec fn context_text(d: SessionData, o: WidgetOpts) -> Option<Seq<char>> {
    match d.used_percentage() {
        Some(p) => {
            let pct = dec(context_number(p as nat, flag(o, "inverse"@))) + "%"@;
            if flag(o, "bar"@) {
                Some(bar(context_cells(p as nat)) + " "@ + pct)
            } else {
                Some(pct)
            }
        },
        None => None,
    }
}

pub open spec fn context_length_text(d: SessionData, o: WidgetOpts) -> Option<Seq<char>> {
    if d.input_tokens() is Some || d.cache_creation_tokens() is Some || d.cache_read_tokens() is Some {
        let n = or_zero(d.input_tokens()) + or_zero(d.cache_creation_tokens()) + or_zero(
            d.cache_read_tokens(),
        );
        if o.raw {
            Some(dec(n))
        } else {
            Some(compact(n))
        }
    } else {
        None
    }
}

/// A token count: compact when raw, else labelled and thousands-separated.
pub open spec fn token_text(label: Seq<char>, n: nat, raw: bool) -> Seq<char> {
    if raw {
        compact(n)
    } else {
        label + grouped(n)
    }
}

pub open spec fn tokens_input_text(d: SessionData, o: WidgetOpts) -> Option<Seq<char>> {
    match d.input_tokens() {
        Some(n) => Some(token_text("In: "@, n as nat, o.raw)),
        None => None,
    }
}

pub open spec fn tokens_output_text(d: SessionData, o: WidgetOpts) -> Option<Seq<char>> {
    match d.output_tokens() {
        Some(n) => Some(token_text("Out: "@, n as nat, o.raw)),
        None => None,
    }
}

pub open spec fn tokens_cached_text(d: SessionData, o: WidgetOpts) -> Option<Seq<char>> {
    if d.cache_creation_tokens() is Some || d.cache_read_tokens() is Some {
        let n = or_zero(d.cache_creation_tokens()) + or_zero(d.cache_read_tokens());
        Some(token_text("Cache: "@, n, o.raw))
    } else {
        None
    }
}

pub open spec fn tokens_total_text(d: SessionData, o: WidgetOpts) -> Option<Seq<char>> {
    if d.input_tokens() is Some || d.output_tokens() is Some || d.cache_creation_tokens() is Some
        || d.cache_read_tokens() is Some {
        let n = or_zero(d.input_tokens()) + or_zero(d.output_tokens()) + or_zero(
            d.cache_creation_tokens(),
        ) + or_zero(d.cache_read_tokens());
        Some(token_text("Total: "@, n, o.raw))
    } else {
        None
    }
}

/// Spend per hour in millionths of a dollar, rounded down.
pub open spec fn burn_rate(cost: nat, duration_ms: nat) -> nat {
    cost * 3_600_000 / duration_ms
}

pub open spec fn session_cost_text(d: SessionData, o: WidgetOpts) -> Option<Seq<char>> {
    match d.cost_usd() {
        Some(x) => {
            let rate = if flag(o, "burn_rate"@) && or_zero(d.duration_ms()) > 0 {
                " ("@ + usd(burn_rate(x as nat, or_zero(d.duration_ms()))) + "/hr)"@
            } else {
                Seq::<char>::empty()
            };
            Some(usd(x as nat) + rate)
        },
        None => None,
    }
}

pub open spec fn session_duration_text(d: SessionData, o: WidgetOpts) -> Option<Seq<char>> {
    match d.duration_ms() {
        Some(ms) => Some(duration_text(ms as nat, !o.raw)),
        None => None,
    }
}

pub open spec fn block_timer_text(d: SessionData, o: WidgetOpts) -> Option<Seq<char>> {
    match d.duration_ms() {
        Some(ms) => {
            let elapsed = (ms as nat) % (BLOCK_MS as nat);
            let left = (BLOCK_MS - elapsed) as nat;
            let gauge = if flag(o, "bar"@) {
                bar(elapsed * 10 / (BLOCK_MS as nat)) + " "@
            } else {
                Seq::<char>::empty()
            };
            Some("Block: "@ + gauge + duration_text(left, true) + " left"@)
        },
        None => None,
    }
}

/// Index of the last `/` before position `n`, or `-1`.
pub open spec fn last_slash(s: Seq<char>, n: int) -> int
    decreases n,
{
    if n <= 0 {
        -1
    } else if s[n - 1] == '/' {
        n - 1
    } else {
        last_slash(s, n - 1)
    }
}

/// The final segment of a path.
pub open spec fn basename(s: Seq<char>) -> Seq<char> {
    s.subrange(last_slash(s, s.len() as int) + 1, s.len() as int)
}

/// Whether the fish-style form keeps the character at `i`: separators,
/// the first character of each segment, and the whole final segment.
pub open spec fn fish_keeps(s: Seq<char>, i: int) -> bool {
    s[i] == '/' || i > last_slash(s, s.len() as int) || i == 0 || s[i - 1] == '/'
}

/// Fish-style form of the first `n` characters of `s`.
pub open spec fn fish_prefix(s: Seq<char>, n: int) -> Seq<char>
    decreases n,
{
    if n <= 0 {
        Seq::<char>::empty()
    } else if fish_keeps(s, n - 1) {
        fish_prefix(s, n - 1).push(s[n - 1])
    } else {
        fish_prefix(s, n - 1)
    }
}

/// A path with each leading directory cut to its first character.
pub open spec fn fish(s: Seq<char>) -> Seq<char> {
    fish_prefix(s, s.len() as int)
}

/// The working directory: the workspace's, else the session's.
pub open spec fn work_dir(d: SessionData) -> Option<Seq<char>> {
    match d.workspace {
        Some(w) => match w.current_dir {
            Some(p) => Some(p@),
            None => d.cwd.deep_view(),
        },
        None => d.cwd.deep_view(),
    }
}

pub open spec fn cwd_text(d: SessionData, o: WidgetOpts) -> Option<Seq<char>> {
    match work_dir(d) {
        Some(p) => if flag(o, "full"@) {
            Some(p)
        } else if flag(o, "fish_style"@) {
            Some(fish(p))
        } else {
            Some(basename(p))
        },
        None => None,
    }
}

pub open spec fn lines_changed_text(d: SessionData, o: WidgetOpts) -> Option<Seq<char>> {
    let a = or_zero(d.lines_added());
    let r = or_zero(d.lines_removed());
    if a != 0 || r != 0 {
        let gap = if o.raw {
            Seq::<char>::empty()
        } else {
            " "@
        };
        Some("+"@ + dec(a) + gap + "-"@ + dec(r))
    } else {
        None
    }
}

/// A version with a leading `v`, added only when missing.
pub open spec fn v_prefixed(v: Seq<char>) -> Seq<char> {
    if v.len() > 0 && v[0] == 'v' {
        v
    } else {
        seq!['v'] + v
    }
}

pub open spec fn version_text(d: SessionData) -> Option<Seq<char>> {
    match d.version {
        Some(v) => Some(v_prefixed(v@)),
        None => None,
    }
}

pub open spec fn session_id_text(d: SessionData) -> Option<Seq<char>> {
    match d.session_id {
        Some(s) => Some(s@.subrange(0, if s@.len() < 8 { s@.len() as int } else { 8 })),
        None => None,
    }
}

/// What upper-casing a string gives.
pub uninterp spec fn upper_of(s: Seq<char>) -> Seq<char>;

pub open spec fn vim_mode_text(d: SessionData) -> Option<Seq<char>> {
    match d.vim {
        Some(v) => match v.mode {
            Some(m) => Some(upper_of(m@)),
            None => Some("NORMAL"@),
        },
        None => None,
    }
}

pub open spec fn agent_name_text(d: SessionData) -> Option<Seq<char>> {
    match d.agent {
        Some(a) => match a.name {
            Some(n) => if n@.len() > 0 {
                Some(n@)
            } else {
                None
            },
            None => None,
        },
        None => None,
    }
}

pub open spec fn output_style_text(d: SessionData) -> Option<Seq<char>> {
    match d.output_style {
        Some(o) => match o.name {
            Some(n) => if n@ != "default"@ {
                Some(n@)
            } else {
                None
            },
            None => None,
        },
        None => None,
    }
}

pub open spec fn exceeds_text(d: SessionData) -> Option<Seq<char>> {
    if d.exceeds_200k_tokens == Some(true) {
        Some("!200K"@)
    } else {
        None
    }
}

pub open spec fn api_duration_text(d: SessionData, o: WidgetOpts) -> Option<Seq<char>> {
    match (d.api_duration_ms(), d.duration_ms()) {
        (Some(a), Some(t)) => if t != 0 {
            let pct = dec(round_half_even(a as nat * 100, t as nat)) + "%"@;
            if o.raw {
                Some(pct)
            } else {
                Some("API: "@ + pct)
            }
        } else {
            None
        },
        _ => None,
    }
}

pub open spec fn custom_text_text(o: WidgetOpts) -> Option<Seq<char>> {
    match lookup(o.meta, "text"@) {
        Some(t) => if t.len() > 0 {
            Some(t)
        } else {
            None
        },
        None => None,
    }
}

pub open spec fn separator_text(o: WidgetOpts, fallback: Seq<char>) -> Seq<char> {
    match lookup(o.meta, "char"@) {
        Some(ch) => ch,
        None => fallback,
    }
}

/// The working tree's state: `clean`, or how many files changed.
pub open spec fn git_status_text(changes: Option<u64>) -> Option<Seq<char>> {
    match changes {
        Some(n) => if n == 0 {
            Some("clean"@)
        } else {
            Some(dec(n as nat) + " changed"@)
        },
        None => None,
    }
}

/// The output recorded for the widget's `command` option, when there is
/// one and it is not empty.
pub open spec fn custom_command_text(reg: WidgetRegistry, o: WidgetOpts) -> Option<Seq<char>> {
    match lookup(o.meta, "command"@) {
        Some(cmd) => match lookup(reg.command_output@, cmd) {
            Some(out) => if out.len() > 0 {
                Some(out)
            } else {
                None
            },
            None => None,
        },
        None => None,
    }
}

pub open spec fn terminal_width_text(w: u16, o: WidgetOpts) -> Seq<char> {
    if o.raw {
        dec(w as nat)
    } else {
        dec(w as nat) + " cols"@
    }
}

/// The text a widget shows, or `None` when it is hidden. The git and
/// custom-command widgets show what the probes recorded in the registry
/// found.
pub open spec fn widget_text(k: WidgetKind, d: SessionData, o: WidgetOpts, reg: WidgetRegistry) -> Option<
    Seq<char>,
> {
    match k {
        WidgetKind::Model => model_text(d, o),
        WidgetKind::ContextPercentage => context_text(d, o),
        WidgetKind::ContextLength => context_length_text(d, o),
        WidgetKind::TokensInput => tokens_input_text(d, o),
        WidgetKind::TokensOutput => tokens_output_text(d, o),
        WidgetKind::TokensCached => tokens_cached_text(d, o),
        WidgetKind::TokensTotal => tokens_total_text(d, o),
        WidgetKind::SessionCost => session_cost_text(d, o),
        WidgetKind::SessionDuration => session_duration_text(d, o),
        WidgetKind::BlockTimer => block_timer_text(d, o),
        WidgetKind::Cwd => cwd_text(d, o),
        WidgetKind::LinesChanged => lines_changed_text(d, o),
        WidgetKind::Version => version_text(d),
        WidgetKind::SessionId => session_id_text(d),
        WidgetKind::VimMode => vim_mode_text(d),
        WidgetKind::AgentName => agent_name_text(d),
        WidgetKind::OutputStyle => output_style_text(d),
        WidgetKind::ExceedsTokens => exceeds_text(d),
        WidgetKind::ApiDuration => api_duration_text(d, o),
        WidgetKind::CustomText => custom_text_text(o),
        WidgetKind::Separator => Some(separator_text(o, "|"@)),
        WidgetKind::FlexSeparator => Some(separator_text(o, " "@)),
        WidgetKind::TerminalWidth => Some(terminal_width_text(reg.terminal_width, o)),
        WidgetKind::GitBranch => reg.git_branch.deep_view(),
        WidgetKind::GitStatus => git_status_text(reg.git_changes),
        WidgetKind::GitWorktree => reg.git_worktree.deep_view(),
        WidgetKind::CustomCommand => custom_command_text(reg, o),
    }
}

/// The colour hint a widget gives.
pub open spec fn widget_hint(k: WidgetKind, d: SessionData) -> Option<Seq<char>> {
    match (k, d.used_percentage()) {
        (WidgetKind::ContextPercentage, Some(p)) => Some(context_hint(p as nat)),
        _ => None,
    }
}

/// `o` is what widget `k` yields on `d` and `c`: visible exactly when it has
/// text, that text, its hint, and the text's width (zero for the fill
/// segment and for hidden output).
pub open spec fn output_of(
    out: WidgetOutput,
    k: WidgetKind,
    d: SessionData,
    o: WidgetOpts,
    reg: WidgetRegistry,
) -> bool {
    let t = widget_text(k, d, o, reg);
    &&& out.visible == t is Some
    &&& out.text@ == (match t {
        Some(s) => s,
        None => Seq::<char>::empty(),
    })
    &&& out.color_hint.deep_view() == widget_hint(k, d)
    &&& out.display_width == (if k == WidgetKind::FlexSeparator || t is None {
        0
    } else {
        out.text@.len()
    })
}

fn or_zero_exec(o: Option<u64>) -> (r: u64)
    ensures
        r as nat == or_zero(o),
{
    match o {
        Some(v) => v,
        None => 0,
    }
}

/// Relies on `str::to_uppercase`: the result depends on the characters alone.
#[verifier::external_body]
fn uppercase(s: &str) -> (r: String)
    ensures
        r@ == upper_of(s@),
{
    s.to_uppercase()
}

fn render_model(d: &SessionData, c: &WidgetConfig) -> (r: Option<String>)
    ensures
        r.deep_view() == model_text(*d, opts(*c)),
{
    match &d.model {
        Some(m) => match &m.display_name {
            Some(n) => {
                if c.raw_value {
                    if let Some(id) = &m.id {
                        return Some(id.clone());
                    }
                }
                Some(n.clone())
            },
            None => None,
        },
        None => None,
    }
}

fn context_hint_string(p: u64) -> (r: String)
    ensures
        r@ == context_hint(p as nat),
{
    if p < 50_000_000 {
        String::from_str("green")
    } else if p < 80_000_000 {
        String::from_str("yellow")
    } else {
        String::from_str("red")
    }
}

fn render_context(d: &SessionData, c: &WidgetConfig) -> (r: Option<String>)
    ensures
        r.deep_view() == context_text(*d, opts(*c)),
{
    match d.used_percentage_value() {
        Some(p) => {
            let inverse = c.metadata.flag("inverse");
            let num: u128 = if inverse {
                if p <= 100_000_000 {
                    ((100_000_000 - p) / 1_000_000) as u128
                } else {
                    0
                }
            } else {
                crate::text::div_round_half_even(p as u128, 1_000_000)
            };
            let mut s = String::new();
            if c.metadata.flag("bar") {
                let f = crate::text::div_round_half_even(p as u128, 10_000_000);
                let cells: u64 = if f > 10 {
                    10
                } else {
                    f as u64
                };
                push_bar(&mut s, cells);
                s.append(" ");
            }
            push_decimal(&mut s, num);
            s.append("%");
            proof {
                let pct = dec(context_number(p as nat, flag(opts(*c), "inverse"@))) + "%"@;
                if flag(opts(*c), "bar"@) {
                    assert(s@ =~= bar(context_cells(p as nat)) + " "@ + pct);
                } else {
                    assert(s@ =~= pct);
                }
            }
            Some(s)
        },
        None => None,
    }
}

fn render_context_length(d: &SessionData, c: &WidgetConfig) -> (r: Option<String>)
    ensures
        r.deep_view() == context_length_text(*d, opts(*c)),
{
    let (input, _out, cc, cr) = d.usage_counts();
    if input.is_some() || cc.is_some() || cr.is_some() {
        let n: u128 = or_zero_exec(input) as u128 + or_zero_exec(cc) as u128 + or_zero_exec(cr) as u128;
        let mut s = String::new();
        if c.raw_value {
            push_decimal(&mut s, n);
        } else {
            push_compact(&mut s, n);
        }
        assert(s@ =~= context_length_text(*d, opts(*c)).unwrap());
        Some(s)
    } else {
        None
    }
}

fn token_string(label: &str, n: u128, raw: bool) -> (r: String)
    ensures
        r@ == token_text(label@, n as nat, raw),
{
    let mut s = String::new();
    if raw {
        push_compact(&mut s, n);
    } else {
        s.append(label);
        push_grouped(&mut s, n);
    }
    assert(s@ =~= token_text(label@, n as nat, raw));
    s
}

fn render_tokens_input(d: &SessionData, c: &WidgetConfig) -> (r: Option<String>)
    ensures
        r.deep_view() == tokens_input_text(*d, opts(*c)),
{
    let (input, _out, _cc, _cr) = d.usage_counts();
    match input {
        Some(n) => Some(token_string("In: ", n as u128, c.raw_value)),
        None => None,
    }
}

fn render_tokens_output(d: &SessionData, c: &WidgetConfig) -> (r: Option<String>)
    ensures
        r.deep_view() == tokens_output_text(*d, opts(*c)),
{
    let (_input, out, _cc, _cr) = d.usage_counts();
    match out {
        Some(n) => Some(token_string("Out: ", n as u128, c.raw_value)),
        None => None,
    }
}

fn render_tokens_cached(d: &SessionData, c: &WidgetConfig) -> (r: Option<String>)
    ensures
        r.deep_view() == tokens_cached_text(*d, opts(*c)),
{
    let (_input, _out, cc, cr) = d.usage_counts();
    if cc.is_some() || cr.is_some() {
        let n: u128 = or_zero_exec(cc) as u128 + or_zero_exec(cr) as u128;
        Some(token_string("Cache: ", n, c.raw_value))
    } else {
        None
    }
}

fn render_tokens_total(d: &SessionData, c: &WidgetConfig) -> (r: Option<String>)
    ensures
        r.deep_view() == tokens_total_text(*d, opts(*c)),
{
    let (input, out, cc, cr) = d.usage_counts();
    if input.is_some() || out.is_some() || cc.is_some() || cr.is_some() {
        let n: u128 = or_zero_exec(input) as u128 + or_zero_exec(out) as u128 + or_zero_exec(cc) as u128
            + or_zero_exec(cr) as u128;
        Some(token_string("Total: ", n, c.raw_value))
    } else {
        None
    }
}

fn render_session_cost(d: &SessionData, c: &WidgetConfig) -> (r: Option<String>)
    ensures
        r.deep_view() == session_cost_text(*d, opts(*c)),
{
    let (cost, dur, _api, _added, _removed) = d.cost_figures();
    match cost {
        Some(x) => {
            let mut s = String::new();
            push_usd(&mut s, x as u128);
            let ms = or_zero_exec(dur);
            if c.metadata.flag("burn_rate") && ms > 0 {
                let rate = (x as u128) * 3_600_000 / (ms as u128);
                s.append(" (");
                push_usd(&mut s, rate);
                s.append("/hr)");
            }
            assert(s@ =~= session_cost_text(*d, opts(*c)).unwrap());
            Some(s)
        },
        None => None,
    }
}

fn render_session_duration(d: &SessionData, c: &WidgetConfig) -> (r: Option<String>)
    ensures
        r.deep_view() == session_duration_text(*d, opts(*c)),
{
    let (_cost, dur, _api, _added, _removed) = d.cost_figures();
    match dur {
        Some(ms) => {
            let mut s = String::new();
            push_duration(&mut s, ms, !c.raw_value);
            assert(s@ =~= session_duration_text(*d, opts(*c)).unwrap());
            Some(s)
        },
        None => None,
    }
}

fn render_block_timer(d: &SessionData, c: &WidgetConfig) -> (r: Option<String>)
    ensures
        r.deep_view() == block_timer_text(*d, opts(*c)),
{
    let (_cost, dur, _api, _added, _removed) = d.cost_figures();
    match dur {
        Some(ms) => {
            let elapsed = ms % BLOCK_MS;
            let left = BLOCK_MS - elapsed;
            let mut s = String::from_str("Block: ");
            if c.metadata.flag("bar") {
                let cells = elapsed * 10 / BLOCK_MS;
                push_bar(&mut s, cells);
                s.append(" ");
            }
            push_duration(&mut s, left, true);
            s.append(" left");
            assert(s@ =~= block_timer_text(*d, opts(*c)).unwrap());
            Some(s)
        },
        None => None,
    }
}

/// Start of the final segment of a path: one past its last `/`.
fn final_segment_start(s: &str) -> (r: usize)
    ensures
        r as int == last_slash(s@, s@.len() as int) + 1,
        r <= s@.len(),
{
    let n = s.unicode_len();
    let mut i = n;
    while i > 0
        invariant
            i <= n,
            n == s@.len(),
            last_slash(s@, n as int) == last_slash(s@, i as int),
        decreases i,
    {
        if s.get_char(i - 1) == '/' {
            return i;
        }
        i = i - 1;
    }
    0
}

fn basename_of(s: &str) -> (r: String)
    ensures
        r@ == basename(s@),
{
    let start = final_segment_start(s);
    let n = s.unicode_len();
    String::from_str(s.substring_char(start, n))
}

fn fish_of(s: &str) -> (r: String)
    ensures
        r@ == fish(s@),
{
    let n = s.unicode_len();
    let start = final_segment_start(s);
    let mut out = String::new();
    let mut i: usize = 0;
    while i < n
        invariant
            n == s@.len(),
            i <= n,
            start as int == last_slash(s@, s@.len() as int) + 1,
            out@ == fish_prefix(s@, i as int),
        decreases n - i,
    {
        let keep = s.get_char(i) == '/' || i >= start || i == 0 || s.get_char(i - 1) == '/';
        if keep {
            let one = s.substring_char(i, i + 1);
            assert(one@ =~= seq![s@[i as int]]);
            out.append(one);
        }
        i = i + 1;
        assert(out@ =~= fish_prefix(s@, i as int));
    }
    out
}

fn render_cwd(d: &SessionData, c: &WidgetConfig) -> (r: Option<String>)
    ensures
        r.deep_view() == cwd_text(*d, opts(*c)),
{
    let path = match &d.workspace {
        Some(w) => match &w.current_dir {
            Some(p) => Some(p.clone()),
            None => clone_opt(&d.cwd),
        },
        None => clone_opt(&d.cwd),
    };
    match path {
        Some(p) => if c.metadata.flag("full") {
            Some(p)
        } else if c.metadata.flag("fish_style") {
            Some(fish_of(p.as_str()))
        } else {
            Some(basename_of(p.as_str()))
        },
        None => None,
    }
}

fn render_lines_changed(d: &SessionData, c: &WidgetConfig) -> (r: Option<String>)
    ensures
        r.deep_view() == lines_changed_text(*d, opts(*c)),
{
    let (_cost, _dur, _api, added, removed) = d.cost_figures();
    let a = or_zero_exec(added);
    let rm = or_zero_exec(removed);
    if a != 0 || rm != 0 {
        let mut s = String::from_str("+");
        push_decimal(&mut s, a as u128);
        if !c.raw_value {
            s.append(" ");
        }
        s.append("-");
        push_decimal(&mut s, rm as u128);
        assert(s@ =~= lines_changed_text(*d, opts(*c)).unwrap());
        Some(s)
    } else {
        None
    }
}

/// A version string with a leading `v`, added only when missing.
pub fn with_v_prefix(v: &str) -> (r: String)
    ensures
        r@ == v_prefixed(v@),
{
    if v.unicode_len() > 0 && v.get_char(0) == 'v' {
        String::from_str(v)
    } else {
        let mut s = String::from_str("v");
        s.append(v);
        proof { reveal_strlit("v"); }
        assert(s@ =~= v_prefixed(v@));
        s
    }
}

fn render_version(d: &SessionData) -> (r: Option<String>)
    ensures
        r.deep_view() == version_text(*d),
{
    match &d.version {
        Some(v) => Some(with_v_prefix(v.as_str())),
        None => None,
    }
}

fn render_session_id(d: &SessionData) -> (r: Option<String>)
    ensures
        r.deep_view() == session_id_text(*d),
{
    match &d.session_id {
        Some(s) => {
            let n = s.as_str().unicode_len();
            let k = if n < 8 {
                n
            } else {
                8
            };
            Some(String::from_str(s.as_str().substring_char(0, k)))
        },
        None => None,
    }
}

fn render_vim_mode(d: &SessionData) -> (r: Option<String>)
    ensures
        r.deep_view() == vim_mode_text(*d),
{
    match &d.vim {
        Some(v) => match &v.mode {
            Some(m) => Some(uppercase(m.as_str())),
            None => Some(String::from_str("NORMAL")),
        },
        None => None,
    }
}

fn render_agent_name(d: &SessionData) -> (r: Option<String>)
    ensures
        r.deep_view() == agent_name_text(*d),
{
    match &d.agent {
        Some(a) => match &a.name {
            Some(n) => if n.as_str().unicode_len() > 0 {
                Some(n.clone())
            } else {
                None
            },
            None => None,
        },
        None => None,
    }
}

fn render_output_style(d: &SessionData) -> (r: Option<String>)
    ensures
        r.deep_view() == output_style_text(*d),
{
    match &d.output_style {
        Some(o) => match &o.name {
            Some(n) => if !str_eq(n.as_str(), "default") {
                Some(n.clone())
            } else {
                None
            },
            None => None,
        },
        None => None,
    }
}

fn render_exceeds(d: &SessionData) -> (r: Option<String>)
    ensures
        r.deep_view() == exceeds_text(*d),
{
    match d.exceeds_200k_tokens {
        Some(true) => Some(String::from_str("!200K")),
        _ => None,
    }
}

fn render_api_duration(d: &SessionData, c: &WidgetConfig) -> (r: Option<String>)
    ensures
        r.deep_view() == api_duration_text(*d, opts(*c)),
{
    let (_cost, dur, api, _added, _removed) = d.cost_figures();
    match (api, dur) {
        (Some(a), Some(t)) => if t != 0 {
            let pct = crate::text::div_round_half_even((a as u128) * 100, t);
            let mut s = if c.raw_value {
                String::new()
            } else {
                String::from_str("API: ")
            };
            push_decimal(&mut s, pct);
            s.append("%");
            assert(s@ =~= api_duration_text(*d, opts(*c)).unwrap());
            Some(s)
        } else {
            None
        },
        _ => None,
    }
}

fn render_custom_text(c: &WidgetConfig) -> (r: Option<String>)
    ensures
        r.deep_view() == custom_text_text(opts(*c)),
{
    match c.metadata.get("text") {
        Some(t) => if t.as_str().unicode_len() > 0 {
            Some(t)
        } else {
            None
        },
        None => None,
    }
}

fn render_separator(c: &WidgetConfig, fallback: &str) -> (r: String)
    ensures
        r@ == separator_text(opts(*c), fallback@),
{
    match c.metadata.get("char") {
        Some(ch) => ch,
        None => String::from_str(fallback),
    }
}

fn render_terminal_width(w: u16, c: &WidgetConfig) -> (r: String)
    ensures
        r@ == terminal_width_text(w, opts(*c)),
{
    let mut s = String::new();
    push_decimal(&mut s, w as u128);
    if !c.raw_value {
        s.append(" cols");
    }
    assert(s@ =~= terminal_width_text(w, opts(*c)));
    s
}

/// Width assumed for the terminal when none was measured.
pub const DEFAULT_TERMINAL_WIDTH: u16 = 80;

/// The name-keyed table of widgets. It also holds what was measured or
/// probed outside this library: the terminal width that the width widget
/// reports and the layout fills to, the git state, and the output of each
/// custom command (keyed by the command).
#[derive(Clone, Debug)]
pub struct WidgetRegistry {
    pub terminal_width: u16,
    pub git_branch: Option<String>,
    /// Number of changed files in the working tree.
    pub git_changes: Option<u64>,
    pub git_worktree: Option<String>,
    pub command_output: Metadata,
}

fn render_git_status(changes: Option<u64>) -> (r: Option<String>)
    ensures
        r.deep_view() == git_status_text(changes),
{
    match changes {
        Some(n) => if n == 0 {
            Some(String::from_str("clean"))
        } else {
            let mut s = String::new();
            push_decimal(&mut s, n as u128);
            s.append(" changed");
            Some(s)
        },
        None => None,
    }
}

impl WidgetRegistry {
    /// A registry for a terminal of the default width, with nothing probed.
    pub fn new() -> (r: WidgetRegistry)
        ensures
            r.terminal_width == DEFAULT_TERMINAL_WIDTH,
            r.git_branch is None && r.git_changes is None && r.git_worktree is None,
            r.command_output@.len() == 0,
    {
        WidgetRegistry::with_terminal_width(DEFAULT_TERMINAL_WIDTH)
    }

    /// A registry for a terminal `width` columns wide, with nothing probed.
    pub fn with_terminal_width(width: u16) -> (r: WidgetRegistry)
        ensures
            r.terminal_width == width,
            r.git_branch is None && r.git_changes is None && r.git_worktree is None,
            r.command_output@.len() == 0,
    {
        WidgetRegistry {
            terminal_width: width,
            git_branch: None,
            git_changes: None,
            git_worktree: None,
            command_output: Metadata::new(),
        }
    }

    /// Records the git state of the working directory.
    pub fn set_git(&mut self, branch: Option<String>, changes: Option<u64>, worktree: Option<String>)
        ensures
            final(self).terminal_width == old(self).terminal_width,
            final(self).command_output == old(self).command_output,
            final(self).git_branch == branch,
            final(self).git_changes == changes,
            final(self).git_worktree == worktree,
    {
        self.git_branch = branch;
        self.git_changes = changes;
        self.git_worktree = worktree;
    }

    /// Records what running `command` printed.
    pub fn set_command_output(&mut self, command: String, output: String)
        ensures
            final(self).terminal_width == old(self).terminal_width,
            final(self).git_branch == old(self).git_branch,
            final(self).git_changes == old(self).git_changes,
            final(self).git_worktree == old(self).git_worktree,
            lookup(final(self).command_output@, command@) == Some(output@),
            forall|k: Seq<char>|
                k != command@ ==> lookup(final(self).command_output@, k) == lookup(
                    old(self).command_output@,
                    k,
                ),
    {
        self.command_output.insert(command, output);
    }

    fn render_custom_command(&self, c: &WidgetConfig) -> (r: Option<String>)
        ensures
            r.deep_view() == custom_command_text(*self, opts(*c)),
    {
        match c.metadata.get("command") {
            Some(cmd) => match self.command_output.get(cmd.as_str()) {
                Some(out) => if out.as_str().unicode_len() > 0 {
                    Some(out)
                } else {
                    None
                },
                None => None,
            },
            None => None,
        }
    }

    /// Evaluates widget `k`.
    pub fn render_kind(&self, k: WidgetKind, data: &SessionData, config: &WidgetConfig) -> (o:
        WidgetOutput)
        ensures
            output_of(o, k, *data, opts(*config), *self),
    {
        let text: Option<String> = match k {
            WidgetKind::Model => render_model(data, config),
            WidgetKind::ContextPercentage => render_context(data, config),
            WidgetKind::ContextLength => render_context_length(data, config),
            WidgetKind::TokensInput => render_tokens_input(data, config),
            WidgetKind::TokensOutput => render_tokens_output(data, config),
            WidgetKind::TokensCached => render_tokens_cached(data, config),
            WidgetKind::TokensTotal => render_tokens_total(data, config),
            WidgetKind::SessionCost => render_session_cost(data, config),
            WidgetKind::SessionDuration => render_session_duration(data, config),
            WidgetKind::BlockTimer => render_block_timer(data, config),
            WidgetKind::Cwd => render_cwd(data, config),
            WidgetKind::LinesChanged => render_lines_changed(data, config),
            WidgetKind::Version => render_version(data),
            WidgetKind::SessionId => render_session_id(data),
            WidgetKind::VimMode => render_vim_mode(data),
            WidgetKind::AgentName => render_agent_name(data),
            WidgetKind::OutputStyle => render_output_style(data),
            WidgetKind::ExceedsTokens => render_exceeds(data),
            WidgetKind::ApiDuration => render_api_duration(data, config),
            WidgetKind::CustomText => render_custom_text(config),
            WidgetKind::Separator => Some(render_separator(config, "|")),
            WidgetKind::FlexSeparator => Some(render_separator(config, " ")),
            WidgetKind::TerminalWidth => Some(render_terminal_width(self.terminal_width, config)),
            WidgetKind::GitBranch => clone_opt(&self.git_branch),
            WidgetKind::GitStatus => render_git_status(self.git_changes),
            WidgetKind::GitWorktree => clone_opt(&self.git_worktree),
            WidgetKind::CustomCommand => self.render_custom_command(config),
        };
        let hint = match (k, data.used_percentage_value()) {
            (WidgetKind::ContextPercentage, Some(p)) => Some(context_hint_string(p)),
            _ => None,
        };
        match text {
            Some(t) => {
                let width = if k == WidgetKind::FlexSeparator {
                    0
                } else {
                    t.as_str().unicode_len()
                };
                WidgetOutput { visible: true, text: t, color_hint: hint, display_width: width }
            },
            None => WidgetOutput {
                visible: false,
                text: String::new(),
                color_hint: hint,
                display_width: 0,
            },
        }
    }

    /// Evaluates the widget registered under `name`; `None` when no widget
    /// has that name.
    pub fn render(&self, name: &str, data: &SessionData, config: &WidgetConfig) -> (r: Option<
        WidgetOutput,
    >)
        ensures
            match kind_of(name@) {
                Some(k) => r is Some && output_of(r.unwrap(), k, *data, opts(*config), *self),
                None => r is None,
            },
    {
        match WidgetKind::from_name(name) {
            Some(k) => Some(self.render_kind(k, data, config)),
            None => None,
        }
    }
}



/// Every widget type name, in catalog order.
pub open spec fn catalog() -> Seq<&'static str> {
    seq!["model", "context-percentage", "context-length", "tokens-input", "tokens-output", "tokens-cached", "tokens-total", "session-cost", "session-duration", "block-timer", "git-branch", "git-status", "git-worktree", "cwd", "lines-changed", "version", "session-id", "vim-mode", "agent-name", "output-style", "exceeds-tokens", "api-duration", "custom-command", "custom-text", "separator", "flex-separator", "terminal-width"
    ]
}

impl WidgetRegistry {
    /// Every widget type name, in catalog order. Each one selects a widget,
    /// and each widget is listed.
    pub fn widget_types() -> (r: Vec<&'static str>)
        ensures
            r@ == catalog(),
            r@.len() == 27,
            forall|i: int| 0 <= i < r@.len() ==> (#[trigger] kind_of(r@[i]@)) is Some,
            forall|k: WidgetKind| #![trigger kind_name(k)] exists|i: int| #![trigger r@[i]] 0 <= i < r@.len() && r@[i]@ == kind_name(k),
    {
        let r = vec![
            "model",
            "context-percentage",
            "context-length",
            "tokens-input",
            "tokens-output",
            "tokens-cached",
            "tokens-total",
            "session-cost",
            "session-duration",
            "block-timer",
            "git-branch",
            "git-status",
            "git-worktree",
            "cwd",
            "lines-changed",
            "version",
            "session-id",
            "vim-mode",
            "agent-name",
            "output-style",
            "exceeds-tokens",
            "api-duration",
            "custom-command",
            "custom-text",
            "separator",
            "flex-separator",
            "terminal-width",
        ];
        assert forall|k: WidgetKind| #![trigger kind_name(k)] exists|i: int| #![trigger r@[i]] 0 <= i < r@.len() && r@[i]@ == kind_name(k) by {
            match k {
                WidgetKind::Model => assert(r@[0]@ == kind_name(k)),
                WidgetKind::ContextPercentage => assert(r@[1]@ == kind_name(k)),
                WidgetKind::ContextLength => assert(r@[2]@ == kind_name(k)),
                WidgetKind::TokensInput => assert(r@[3]@ == kind_name(k)),
                WidgetKind::TokensOutput => assert(r@[4]@ == kind_name(k)),
                WidgetKind::TokensCached => assert(r@[5]@ == kind_name(k)),
                WidgetKind::TokensTotal => assert(r@[6]@ == kind_name(k)),
                WidgetKind::SessionCost => assert(r@[7]@ == kind_name(k)),
                WidgetKind::SessionDuration => assert(r@[8]@ == kind_name(k)),
                WidgetKind::BlockTimer => assert(r@[9]@ == kind_name(k)),
                WidgetKind::GitBranch => assert(r@[10]@ == kind_name(k)),
                WidgetKind::GitStatus => assert(r@[11]@ == kind_name(k)),
                WidgetKind::GitWorktree => assert(r@[12]@ == kind_name(k)),
                WidgetKind::Cwd => assert(r@[13]@ == kind_name(k)),
                WidgetKind::LinesChanged => assert(r@[14]@ == kind_name(k)),
                WidgetKind::Version => assert(r@[15]@ == kind_name(k)),
                WidgetKind::SessionId => assert(r@[16]@ == kind_name(k)),
                WidgetKind::VimMode => assert(r@[17]@ == kind_name(k)),
                WidgetKind::AgentName => assert(r@[18]@ == kind_name(k)),
                WidgetKind::OutputStyle => assert(r@[19]@ == kind_name(k)),
                WidgetKind::ExceedsTokens => assert(r@[20]@ == kind_name(k)),
                WidgetKind::ApiDuration => assert(r@[21]@ == kind_name(k)),
                WidgetKind::CustomCommand => assert(r@[22]@ == kind_name(k)),
                WidgetKind::CustomText => assert(r@[23]@ == kind_name(k)),
                WidgetKind::Separator => assert(r@[24]@ == kind_name(k)),
                WidgetKind::FlexSeparator => assert(r@[25]@ == kind_name(k)),
                WidgetKind::TerminalWidth => assert(r@[26]@ == kind_name(k)),
            }
        }
        r
    }
}

/// Every widget type name selects a widget: rendering any widget type, on
/// any data and configuration, yields an output.
pub proof fn lemma_every_widget_type_renders(k: WidgetKind)
    ensures
        kind_of(kind_name(k)) is Some,
{
}

/// Rendering a version that already starts with `v` leaves it unchanged,
/// so the prefix is added at most once.
pub proof fn lemma_version_idempotent(v: Seq<char>)
    ensures
        v_prefixed(v_prefixed(v)) == v_prefixed(v),
        v.len() > 0 && v[0] == 'v' ==> v_prefixed(v) == v,
{
    if !(v.len() > 0 && v[0] == 'v') {
        assert((seq!['v'] + v)[0] == 'v');
    }
}

/// The context gauge's colour hint depends on the used share alone:
/// green below 50%, yellow from 50% up to 80%, red from 80%.
pub proof fn lemma_context_hint_steps(d: SessionData, p: u64)
    requires
        d.used_percentage() == Some(p),
    ensures
        widget_hint(WidgetKind::ContextPercentage, d) == Some(context_hint(p as nat)),
        p < 50_000_000 ==> context_hint(p as nat) == "green"@,
        50_000_000 <= p < 80_000_000 ==> context_hint(p as nat) == "yellow"@,
        80_000_000 <= p ==> context_hint(p as nat) == "red"@,
{
}

/// The compact form counts whole thousands (or millions), rounding down,
/// of the same total that the labelled form writes out in full.
pub proof fn lemma_compact_rounds_down(label: Seq<char>, n: nat)
    ensures
        token_text(label, n, false) == label + grouped(n),
        1000 <= n < 1_000_000 ==> token_text(label, n, true) == dec(n / 1000) + "K"@,
        1_000_000 <= n ==> token_text(label, n, true) == dec(n / 1_000_000) + "M"@,
        n < 1000 ==> token_text(label, n, true) == dec(n),
{
    reveal_strlit("K");
    reveal_strlit("M");
}

/// The lines-changed widget is shown exactly when lines were added or
/// removed.
pub proof fn lemma_lines_changed_visibility(d: SessionData, o: WidgetOpts)
    ensures
        (lines_changed_text(d, o) is Some) == (or_zero(d.lines_added()) != 0 || or_zero(
            d.lines_removed(),
        ) != 0),
{
}

} // verus!
