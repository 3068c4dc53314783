use claude_status::cli::{is_theme, preset, set_theme};
use claude_status::config::{Config, LineWidgetConfig};
use claude_status::layout::LayoutEngine;
use claude_status::render::{ColorEnv, ColorLevel, Renderer};
use claude_status::text::decimal;
use claude_status::themes::Theme;
use claude_status::tui::{available_widget_types, Action, Key, Tab, TuiState};
use claude_status::widgets::data::{ContextWindow, Cost, CurrentUsage, Model, Vim, Workspace};
use claude_status::widgets::{with_v_prefix, Metadata, SessionData, WidgetConfig, WidgetRegistry};

fn cfg() -> WidgetConfig {
    WidgetConfig {
        widget_type: String::new(),
        id: "t".into(),
        color: None,
        background_color: None,
        bold: None,
        raw_value: false,
        padding: None,
        merge_next: false,
        metadata: Metadata::new(),
    }
}

fn raw_cfg() -> WidgetConfig {
    let mut c = cfg();
    c.raw_value = true;
    c
}

fn text_of(name: &str, data: &SessionData, c: &WidgetConfig) -> Option<String> {
    let out = WidgetRegistry::new().render(name, data, c).unwrap();
    if out.visible {
        Some(out.text)
    } else {
        None
    }
}

fn with_used(p: u64) -> SessionData {
    SessionData {
        context_window: Some(ContextWindow {
            used_percentage: Some(p),
            ..Default::default()
        }),
        ..Default::default()
    }
}

fn with_cost(c: Cost) -> SessionData {
    SessionData {
        cost: Some(c),
        ..Default::default()
    }
}

fn with_input_tokens(n: u64) -> SessionData {
    SessionData {
        context_window: Some(ContextWindow {
            current_usage: Some(CurrentUsage {
                input_tokens: Some(n),
                ..Default::default()
            }),
            ..Default::default()
        }),
        ..Default::default()
    }
}

fn entry(widget_type: &str) -> LineWidgetConfig {
    LineWidgetConfig {
        widget_type: widget_type.into(),
        id: String::new(),
        color: None,
        background_color: None,
        bold: None,
        raw_value: false,
        padding: None,
        merge_next: false,
        metadata: Metadata::new(),
    }
}

fn full_session() -> SessionData {
    SessionData {
        model: Some(Model {
            id: Some("example-model-7".into()),
            display_name: Some("Opus".into()),
        }),
        version: Some("2.1.31".into()),
        cost: Some(Cost {
            total_cost_usd: Some(84_200),
            total_duration_ms: Some(345000),
            total_api_duration_ms: Some(156000),
            total_lines_added: Some(156),
            total_lines_removed: Some(23),
        }),
        context_window: Some(ContextWindow {
            used_percentage: Some(42_500_000),
            remaining_percentage: Some(57_500_000),
            ..Default::default()
        }),
        ..Default::default()
    }
}

fn render_with(config: &Config, level: &str, width: u16, data: &SessionData) -> Vec<String> {
    let renderer = Renderer::detect(level);
    let registry = WidgetRegistry::with_terminal_width(width);
    LayoutEngine::new(config, &renderer).render(data, config, &registry)
}

#[test]
fn version_prefix_added_once() {
    assert_eq!(with_v_prefix("1.0"), "v1.0");
    assert_eq!(with_v_prefix("v1.0"), "v1.0");
    assert_eq!(with_v_prefix(&with_v_prefix("2.0")), "v2.0");
    assert_eq!(with_v_prefix(""), "v");
}

#[test]
fn context_hint_steps_at_bounds() {
    let hint = |p: u64| {
        WidgetRegistry::new()
            .render("context-percentage", &with_used(p), &cfg())
            .unwrap()
            .color_hint
    };
    assert_eq!(hint(0), Some("green".to_string()));
    assert_eq!(hint(49_999_999), Some("green".to_string()));
    assert_eq!(hint(50_000_000), Some("yellow".to_string()));
    assert_eq!(hint(79_999_999), Some("yellow".to_string()));
    assert_eq!(hint(80_000_000), Some("red".to_string()));
    assert_eq!(hint(100_000_000), Some("red".to_string()));
}

#[test]
fn context_percentage_rounds_half_to_even_and_bar() {
    assert_eq!(text_of("context-percentage", &with_used(42_500_000), &cfg()).unwrap(), "42%");
    assert_eq!(text_of("context-percentage", &with_used(43_500_000), &cfg()).unwrap(), "44%");
    assert_eq!(text_of("context-percentage", &with_used(42_600_000), &cfg()).unwrap(), "43%");
    let mut bar = cfg();
    bar.metadata.insert("bar".into(), "true".into());
    assert_eq!(
        text_of("context-percentage", &with_used(42_500_000), &bar).unwrap(),
        "▓▓▓▓░░░░░░ 42%"
    );
    assert_eq!(
        text_of("context-percentage", &with_used(100_000_000), &bar).unwrap(),
        "▓▓▓▓▓▓▓▓▓▓ 100%"
    );
    let mut inverse = cfg();
    inverse.metadata.insert("inverse".into(), "true".into());
    assert_eq!(text_of("context-percentage", &with_used(120_000_000), &inverse).unwrap(), "0%");
}

#[test]
fn compact_forms_round_down_at_unit_boundaries() {
    assert_eq!(text_of("tokens-input", &with_input_tokens(999), &raw_cfg()).unwrap(), "999");
    assert_eq!(text_of("tokens-input", &with_input_tokens(1000), &raw_cfg()).unwrap(), "1K");
    assert_eq!(text_of("tokens-input", &with_input_tokens(8500), &raw_cfg()).unwrap(), "8K");
    assert_eq!(text_of("tokens-input", &with_input_tokens(999_999), &raw_cfg()).unwrap(), "999K");
    assert_eq!(text_of("tokens-input", &with_input_tokens(1_999_999), &raw_cfg()).unwrap(), "1M");
    assert_eq!(
        text_of("tokens-input", &with_input_tokens(1_234_567), &cfg()).unwrap(),
        "In: 1,234,567"
    );
    assert_eq!(text_of("tokens-input", &with_input_tokens(0), &cfg()).unwrap(), "In: 0");
    assert_eq!(text_of("tokens-input", &with_input_tokens(1000), &cfg()).unwrap(), "In: 1,000");
    assert_eq!(
        text_of("tokens-input", &with_input_tokens(u64::MAX), &cfg()).unwrap(),
        "In: 18,446,744,073,709,551,615"
    );
}

#[test]
fn lines_changed_visible_iff_any_change() {
    let lc = |a: Option<u64>, r: Option<u64>| {
        text_of(
            "lines-changed",
            &with_cost(Cost {
                total_lines_added: a,
                total_lines_removed: r,
                ..Default::default()
            }),
            &cfg(),
        )
    };
    assert_eq!(lc(Some(0), Some(5)), Some("+0 -5".to_string()));
    assert_eq!(lc(Some(7), None), Some("+7 -0".to_string()));
    assert_eq!(lc(Some(0), Some(0)), None);
    assert_eq!(lc(None, None), None);
}

#[test]
fn cost_rounds_cents_half_to_even() {
    let usd = |m: u64| {
        text_of(
            "session-cost",
            &with_cost(Cost {
                total_cost_usd: Some(m),
                ..Default::default()
            }),
            &cfg(),
        )
        .unwrap()
    };
    assert_eq!(usd(0), "$0.00");
    assert_eq!(usd(5_000), "$0.00");
    assert_eq!(usd(15_000), "$0.02");
    assert_eq!(usd(25_000), "$0.02");
    assert_eq!(usd(12_345_678), "$12.35");
}

#[test]
fn burn_rate_exact_and_guarded() {
    let mut c = cfg();
    c.metadata.insert("burn_rate".into(), "true".into());
    assert_eq!(
        text_of("session-cost", &full_session(), &c).unwrap(),
        "$0.08 ($0.88/hr)"
    );
    let zero = with_cost(Cost {
        total_cost_usd: Some(84_200),
        total_duration_ms: Some(0),
        ..Default::default()
    });
    assert_eq!(text_of("session-cost", &zero, &c).unwrap(), "$0.08");
}

#[test]
fn durations_and_block_timer() {
    let dur = |ms: u64, c: &WidgetConfig| {
        text_of(
            "session-duration",
            &with_cost(Cost {
                total_duration_ms: Some(ms),
                ..Default::default()
            }),
            c,
        )
        .unwrap()
    };
    assert_eq!(dur(12_000, &cfg()), "12s");
    assert_eq!(dur(3_723_000, &cfg()), "1h 2m");
    assert_eq!(dur(3_723_000, &raw_cfg()), "1h2m");
    assert_eq!(text_of("block-timer", &full_session(), &cfg()).unwrap(), "Block: 4h 54m left");
    let mut bar = cfg();
    bar.metadata.insert("bar".into(), "true".into());
    assert_eq!(
        text_of("block-timer", &full_session(), &bar).unwrap(),
        "Block: ░░░░░░░░░░ 4h 54m left"
    );
}

#[test]
fn api_duration_guards_zero_total() {
    let data = with_cost(Cost {
        total_duration_ms: Some(0),
        total_api_duration_ms: Some(10),
        ..Default::default()
    });
    assert_eq!(text_of("api-duration", &data, &cfg()), None);
}

#[test]
fn cwd_forms() {
    let at = |p: &str| SessionData {
        workspace: Some(Workspace {
            current_dir: Some(p.into()),
            project_dir: None,
        }),
        ..Default::default()
    };
    let mut fish = cfg();
    fish.metadata.insert("fish_style".into(), "true".into());
    assert_eq!(text_of("cwd", &at("relative/path/x"), &fish).unwrap(), "r/p/x");
    assert_eq!(text_of("cwd", &at("/home/user/"), &cfg()).unwrap(), "");
    let only_cwd = SessionData {
        cwd: Some("/a/b".into()),
        ..Default::default()
    };
    assert_eq!(text_of("cwd", &only_cwd, &cfg()).unwrap(), "b");
}

#[test]
fn vim_mode_is_upper_cased() {
    let data = SessionData {
        vim: Some(Vim {
            mode: Some("insert".into()),
        }),
        ..Default::default()
    };
    assert_eq!(text_of("vim-mode", &data, &cfg()).unwrap(), "INSERT");
}

#[test]
fn session_id_shorter_than_eight() {
    let data = SessionData {
        session_id: Some("abc".into()),
        ..Default::default()
    };
    assert_eq!(text_of("session-id", &data, &cfg()).unwrap(), "abc");
}

#[test]
fn metadata_later_insert_shadows() {
    let mut m = Metadata::new();
    m.insert("char".into(), "a".into());
    m.insert("char".into(), "b".into());
    assert_eq!(m.get("char"), Some("b".to_string()));
    assert_eq!(m.get("other"), None);
    assert!(!m.flag("char"));
}

#[test]
fn default_line_exact_text() {
    let lines = render_with(&Config::default(), "none", 80, &full_session());
    assert_eq!(lines, vec!["Opus | 42% | $0.08 | 5m 45s".to_string()]);
}

#[test]
fn empty_data_gives_no_lines() {
    let lines = render_with(&Config::default(), "auto", 80, &SessionData::default());
    assert!(lines.is_empty());
}

#[test]
fn two_line_config_exact_lines() {
    let mut config = Config::default();
    let mut cost = entry("session-cost");
    cost.raw_value = true;
    config.lines = vec![vec![entry("model")], vec![cost]];
    let lines = render_with(&config, "none", 80, &full_session());
    assert_eq!(lines, vec!["Opus".to_string(), "$0.08".to_string()]);
}

#[test]
fn explicit_colors_without_color_level_stay_plain() {
    let mut config = Config::default();
    let mut m = entry("model");
    m.color = Some("red".into());
    m.background_color = Some("#00ff00".into());
    m.bold = Some(true);
    config.lines = vec![vec![m]];
    let plain = render_with(&config, "none", 80, &full_session());
    assert_eq!(plain, vec!["Opus".to_string()]);
    let coloured = render_with(&config, "16", 80, &full_session());
    assert_eq!(coloured, vec!["\x1b[1;31;42mOpus\x1b[0m".to_string()]);
}

#[test]
fn flex_separator_fills_target_width() {
    let mut config = Config::default();
    config.flex_mode = "full".into();
    config.lines = vec![vec![entry("model"), entry("flex-separator"), entry("version")]];
    let lines = render_with(&config, "none", 30, &full_session());
    assert_eq!(lines.len(), 1);
    assert_eq!(lines[0].chars().count(), 30);
    assert_eq!(lines[0], format!("Opus | {} | v2.1.31", " ".repeat(13)));
}

#[test]
fn flex_remainder_goes_to_last_fill() {
    let mut config = Config::default();
    config.flex_mode = "full".into();
    let mut a = entry("flex-separator");
    a.metadata.insert("char".into(), "-".into());
    let mut b = entry("flex-separator");
    b.metadata.insert("char".into(), "=".into());
    let mut m = entry("model");
    m.merge_next = true;
    config.lines = vec![vec![m, a, b]];
    // fixed: "Opus" (4); the joint after the first fill is " | " (3); 10 - 7 = 3 cells.
    let lines = render_with(&config, "none", 10, &full_session());
    assert_eq!(lines, vec!["Opus- | ==".to_string()]);
}

#[test]
fn powerline_segments_are_padded_and_joined() {
    let mut config = Config::default();
    config.powerline.enabled = true;
    config.powerline.end_cap = Some(">".into());
    config.lines = vec![vec![entry("model"), entry("version")]];
    let lines = render_with(&config, "none", 80, &full_session());
    assert_eq!(lines, vec![" Opus \u{E0B0} v2.1.31 >".to_string()]);
}

#[test]
fn unknown_widget_is_skipped_in_a_line() {
    let mut config = Config::default();
    config.lines = vec![vec![entry("nope"), entry("model")]];
    let lines = render_with(&config, "none", 80, &full_session());
    assert_eq!(lines, vec!["Opus".to_string()]);
}

#[test]
fn narrow_target_compacts_numbers() {
    let mut config = Config::default();
    config.lines = vec![vec![entry("tokens-input")]];
    let data = with_input_tokens(8500);
    assert_eq!(render_with(&config, "none", 80, &data), vec!["8K".to_string()]);
    config.flex_mode = "full".into();
    assert_eq!(render_with(&config, "none", 80, &data), vec!["In: 8,500".to_string()]);
}

#[test]
fn renderer_codes_per_level() {
    let paint = |level: &str, fg: &str| Renderer::detect(level).paint("x", Some(fg), None, false);
    assert_eq!(paint("256", "#ff0000"), "\x1b[38;5;196mx\x1b[0m");
    assert_eq!(paint("truecolor", "#ff8000"), "\x1b[38;2;255;128;0mx\x1b[0m");
    assert_eq!(paint("16", "#ff8000"), "\x1b[33mx\x1b[0m");
    assert_eq!(paint("16", "brightBlack"), "\x1b[90mx\x1b[0m");
    assert_eq!(paint("16", "no-such-colour"), "x");
    assert_eq!(paint("none", "red"), "x");
}

#[test]
fn renderer_detects_from_environment() {
    let env = |ct: Option<&str>, term: Option<&str>, no: bool| ColorEnv {
        colorterm: ct.map(String::from),
        term: term.map(String::from),
        no_color: no,
    };
    let lvl = |l: &str, e: &ColorEnv| Renderer::detect_with_env(l, e).level;
    assert_eq!(lvl("auto", &env(Some("truecolor"), None, false)), ColorLevel::TrueColor);
    assert_eq!(lvl("auto", &env(Some("24bit"), None, false)), ColorLevel::TrueColor);
    assert_eq!(lvl("auto", &env(None, Some("xterm-256color"), false)), ColorLevel::Ansi256);
    assert_eq!(lvl("auto", &env(None, Some("xterm"), false)), ColorLevel::Ansi16);
    assert_eq!(lvl("auto", &env(Some("truecolor"), None, true)), ColorLevel::NoColor);
    assert_eq!(lvl("256", &env(None, None, true)), ColorLevel::Ansi256);
    assert_eq!(Renderer::detect("auto").level, ColorLevel::Ansi16);
}

#[test]
fn unknown_theme_falls_back_to_default() {
    assert_eq!(Theme::get("no-such-theme").name, "default");
    assert_eq!(Theme::get("nord").color("cost"), Some("#ebcb8b".to_string()));
    assert_eq!(Theme::get("nord").color("nonexistent"), None);
    assert_eq!(Theme::get("dracula").role_for_widget("custom-text"), None);
}

#[test]
fn catalog_matches_registry() {
    let types = WidgetRegistry::widget_types();
    assert_eq!(types.len(), 27);
    assert_eq!(available_widget_types(), types);
    let registry = WidgetRegistry::new();
    for t in &types {
        assert!(registry.render(t, &SessionData::default(), &cfg()).is_some());
    }
}

#[test]
fn presets_and_theme_selection() {
    assert!(preset("unknown").is_none());
    assert!(preset("powerline").unwrap().powerline.enabled);
    assert_eq!(preset("full").unwrap().lines.len(), 2);
    assert!(preset("compact").unwrap().lines[0].iter().all(|w| w.raw_value));
    let mut c = Config::default();
    assert!(!set_theme(&mut c, "nope"));
    assert_eq!(c.theme, "default");
    assert!(set_theme(&mut c, "nord"));
    assert_eq!(c.theme, "nord");
    assert!(is_theme("tokyo-night"));
}

#[test]
fn editor_keys() {
    let mut s = TuiState::new(Config::default());
    assert_eq!(s.handle_key(Key::BackTab, false), Action::Continue);
    assert_eq!(s.active_tab, Tab::Preview);
    s.handle_key(Key::Tab, false);
    assert_eq!(s.active_tab, Tab::Widgets);
    s.handle_key(Key::Char('a'), false);
    assert!(s.modified);
    assert_eq!(s.config.lines[0].len(), 5);
    assert_eq!(s.config.lines[0][4].widget_type, "context-length");
    s.handle_key(Key::Char('j'), false);
    assert_eq!(s.widget_cursor, 1);
    assert_eq!(s.config.lines[0][0].widget_type, "context-percentage");
    assert_eq!(s.config.lines[0][1].widget_type, "model");
    s.handle_key(Key::Delete, false);
    assert_eq!(s.config.lines[0].len(), 4);
    assert_eq!(s.handle_key(Key::Char('s'), true), Action::Save);
    assert!(!s.modified);
    s.handle_key(Key::Tab, false);
    s.handle_key(Key::Down, false);
    s.handle_key(Key::Enter, false);
    assert_eq!(s.config.theme, "solarized");
    s.handle_key(Key::Tab, false);
    s.handle_key(Key::Down, false);
    s.handle_key(Key::Enter, false);
    assert_eq!(s.config.powerline.separator, "\u{E0B4}");
    s.handle_key(Key::Tab, false);
    s.handle_key(Key::Down, false);
    s.handle_key(Key::Down, false);
    s.handle_key(Key::Char(' '), false);
    assert_eq!(s.config.flex_mode, "full");
    assert_eq!(s.handle_key(Key::Char('q'), false), Action::Quit);
}

#[test]
fn decimal_of_zero_and_large() {
    assert_eq!(decimal(0), "0");
    assert_eq!(decimal(1_000_000_007), "1000000007");
}

#[test]
fn git_and_command_widgets_show_probed_values() {
    let mut registry = WidgetRegistry::new();
    let data = SessionData::default();
    assert!(!registry.render("git-branch", &data, &cfg()).unwrap().visible);
    registry.set_git(Some("main".into()), Some(3), Some("feature".into()));
    let text = |r: &WidgetRegistry, name: &str, c: &WidgetConfig| {
        let out = r.render(name, &data, c).unwrap();
        if out.visible {
            Some(out.text)
        } else {
            None
        }
    };
    assert_eq!(text(&registry, "git-branch", &cfg()), Some("main".to_string()));
    assert_eq!(text(&registry, "git-status", &cfg()), Some("3 changed".to_string()));
    assert_eq!(text(&registry, "git-worktree", &cfg()), Some("feature".to_string()));
    registry.set_git(Some("main".into()), Some(0), None);
    assert_eq!(text(&registry, "git-status", &cfg()), Some("clean".to_string()));
    assert_eq!(text(&registry, "git-worktree", &cfg()), None);

    let mut c = cfg();
    c.metadata.insert("command".into(), "date".into());
    assert_eq!(text(&registry, "custom-command", &c), None);
    registry.set_command_output("date".into(), "Mon".into());
    assert_eq!(text(&registry, "custom-command", &c), Some("Mon".to_string()));
    registry.set_command_output("date".into(), "".into());
    assert_eq!(text(&registry, "custom-command", &c), None);
}

#[test]
fn metadata_keys_stay_unique() {
    let mut m = Metadata::new();
    m.insert("a".into(), "1".into());
    m.insert("b".into(), "2".into());
    m.insert("a".into(), "3".into());
    let pairs = m.pairs();
    assert_eq!(pairs.len(), 2);
    assert_eq!(m.get("a"), Some("3".to_string()));
    assert_eq!(m.get("b"), Some("2".to_string()));
}

#[test]
fn default_config_entries_and_powerline_presses() {
    let c = Config::default();
    let ids: Vec<&str> = c.lines[0].iter().map(|w| w.id.as_str()).collect();
    assert_eq!(ids, vec!["1", "2", "3", "4"]);
    let raws: Vec<bool> = c.lines[0].iter().map(|w| w.raw_value).collect();
    assert_eq!(raws, vec![false, false, true, false]);
    let mut s = TuiState::new(Config::default());
    s.handle_key(Key::Tab, false);
    s.handle_key(Key::Tab, false);
    assert_eq!(s.active_tab, Tab::Powerline);
    s.handle_key(Key::Enter, false);
    assert!(s.config.powerline.enabled);
    s.handle_key(Key::Enter, false);
    assert!(!s.config.powerline.enabled);
}
