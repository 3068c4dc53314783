use claude_status::config::{Config, LineWidgetConfig};
use claude_status::layout::LayoutEngine;
use claude_status::render::Renderer;
use claude_status::themes::Theme;
use claude_status::widgets::data::{ContextWindow, Cost, CurrentUsage, Model};
use claude_status::widgets::{Metadata, SessionData, WidgetConfig, WidgetRegistry};

fn render_data(data: &SessionData) -> Vec<String> {
    let config = Config::default();
    let renderer = Renderer::detect("none");
    let registry = WidgetRegistry::new();
    let engine = LayoutEngine::new(&config, &renderer);
    engine.render(data, &config, &registry)
}

fn model(id: Option<&str>, display_name: &str) -> Option<Model> {
    Some(Model {
        id: id.map(String::from),
        display_name: Some(display_name.into()),
    })
}

fn cost(usd_micros: u64, duration_ms: u64) -> Option<Cost> {
    Some(Cost {
        total_cost_usd: Some(usd_micros),
        total_duration_ms: Some(duration_ms),
        ..Default::default()
    })
}

fn context(used: u64, remaining: u64, usage: Option<CurrentUsage>) -> Option<ContextWindow> {
    Some(ContextWindow {
        used_percentage: Some(used),
        remaining_percentage: Some(remaining),
        current_usage: usage,
        ..Default::default()
    })
}

#[test]
fn render_with_default_config_produces_output() {
    let data = SessionData {
        model: model(Some("example-model-7"), "Opus"),
        cost: cost(50_000, 120000),
        context_window: context(30_000_000, 70_000_000, None),
        ..Default::default()
    };

    let lines = render_data(&data);
    assert!(
        !lines.is_empty(),
        "Should produce at least one line of output"
    );
    let combined = lines.join("");
    assert!(combined.contains("Opus"));
}

#[test]
fn render_with_empty_json_does_not_panic() {
    let lines = render_data(&SessionData::default());
    // No widget has data, so there is no visible output.
    assert!(lines.is_empty() || lines.iter().all(|l| l.is_empty() || l.trim().is_empty()));
}

#[test]
fn render_with_minimal_json_just_model() {
    let data = SessionData {
        model: model(None, "Sonnet"),
        ..Default::default()
    };
    let lines = render_data(&data);
    // Only the model widget is visible; the line is still rendered.
    assert!(!lines.is_empty());
    let combined = lines.join("");
    assert!(combined.contains("Sonnet"));
}

fn full_session() -> SessionData {
    SessionData {
        cwd: Some("/Users/test/project".into()),
        session_id: Some("abc12345-def6-7890-ghij-klmn12345678".into()),
        model: model(Some("example-model-7"), "Opus"),
        version: Some("2.1.31".into()),
        cost: Some(Cost {
            total_cost_usd: Some(84_200),
            total_duration_ms: Some(345000),
            total_api_duration_ms: Some(156000),
            total_lines_added: Some(156),
            total_lines_removed: Some(23),
        }),
        context_window: context(
            42_500_000,
            57_500_000,
            Some(CurrentUsage {
                input_tokens: Some(8500),
                output_tokens: Some(1200),
                cache_creation_input_tokens: Some(5000),
                cache_read_input_tokens: Some(2000),
            }),
        ),
        exceeds_200k_tokens: Some(false),
        ..Default::default()
    }
}

#[test]
fn render_full_session_data() {
    let lines = render_data(&full_session());
    assert!(!lines.is_empty());
    let combined = lines.join("");
    // Default config renders: model, context-percentage, session-cost, session-duration
    assert!(combined.contains("Opus"));
    assert!(combined.contains("42%"));
    assert!(combined.contains("$0.08"));
    assert!(combined.contains("5m"));
}

fn line_entry(widget_type: &str, id: &str, raw_value: bool) -> LineWidgetConfig {
    LineWidgetConfig {
        widget_type: widget_type.into(),
        id: id.into(),
        color: None,
        background_color: None,
        bold: None,
        raw_value,
        padding: None,
        merge_next: false,
        metadata: Metadata::new(),
    }
}

#[test]
fn multiline_config_produces_multiple_lines() {
    let data = SessionData {
        model: model(None, "Opus"),
        version: Some("2.1.31".into()),
        cost: cost(50_000, 60000),
        context_window: context(
            25_000_000,
            75_000_000,
            Some(CurrentUsage {
                input_tokens: Some(5000),
                output_tokens: Some(1000),
                cache_creation_input_tokens: Some(2000),
                cache_read_input_tokens: Some(1000),
            }),
        ),
        ..Default::default()
    };

    let mut config = Config::default();
    config.lines = vec![
        vec![line_entry("model", "1", false)],
        vec![line_entry("session-cost", "2", true)],
    ];

    let renderer = Renderer::detect("none");
    let registry = WidgetRegistry::new();
    let engine = LayoutEngine::new(&config, &renderer);
    let lines = engine.render(&data, &config, &registry);
    assert_eq!(lines.len(), 2, "Should produce two output lines");
}

#[test]
fn renderer_none_produces_no_ansi() {
    let data = SessionData {
        model: model(None, "Opus"),
        cost: cost(50_000, 60000),
        context_window: context(25_000_000, 75_000_000, None),
        ..Default::default()
    };

    let lines = render_data(&data);
    for line in &lines {
        assert!(
            !line.contains("\x1b["),
            "No ANSI escape codes with color_level=none"
        );
    }
}

#[test]
fn widget_registry_has_all_expected_widgets() {
    let registry = WidgetRegistry::new();
    let data = SessionData::default();
    let config = WidgetConfig {
        widget_type: String::new(),
        id: "test".into(),
        color: None,
        background_color: None,
        bold: None,
        raw_value: false,
        padding: None,
        merge_next: false,
        metadata: Metadata::new(),
    };

    let expected = [
        "model",
        "context-percentage",
        "context-length",
        "tokens-input",
        "tokens-output",
        "tokens-cached",
        "tokens-total",
        "session-cost",
        "session-duration",
        "block-timer",
        "git-branch",
        "git-status",
        "git-worktree",
        "cwd",
        "lines-changed",
        "version",
        "session-id",
        "vim-mode",
        "agent-name",
        "output-style",
        "exceeds-tokens",
        "api-duration",
        "custom-command",
        "custom-text",
        "separator",
        "flex-separator",
        "terminal-width",
    ];

    for name in &expected {
        assert!(
            registry.render(name, &data, &config).is_some(),
            "Widget '{}' should be registered in the registry",
            name
        );
    }
}

#[test]
fn theme_list_has_eleven_themes() {
    let themes = Theme::list();
    assert_eq!(themes.len(), 11);
    assert!(themes.contains(&"default"));
    assert!(themes.contains(&"solarized"));
    assert!(themes.contains(&"nord"));
    assert!(themes.contains(&"dracula"));
    assert!(themes.contains(&"gruvbox"));
    assert!(themes.contains(&"monokai"));
    assert!(themes.contains(&"light"));
    assert!(themes.contains(&"high-contrast"));
    assert!(themes.contains(&"one-dark"));
    assert!(themes.contains(&"tokyo-night"));
    assert!(themes.contains(&"catppuccin"));
}

#[test]
fn theme_role_for_widget_returns_color() {
    let theme = Theme::get("dracula");
    assert!(theme.role_for_widget("model").is_some());
    assert!(theme.role_for_widget("context-percentage").is_some());
    assert!(theme.role_for_widget("git-branch").is_some());
    assert!(theme.role_for_widget("session-cost").is_some());
    assert!(theme.role_for_widget("separator").is_some());
    assert!(theme.role_for_widget("nonexistent-widget").is_none());
}

#[test]
fn all_themes_have_required_color_roles() {
    for name in Theme::list() {
        let theme = Theme::get(name);
        let roles = [
            "model",
            "context_ok",
            "context_warn",
            "context_critical",
            "git_branch",
            "git_clean",
            "git_dirty",
            "cost",
            "duration",
            "separator_fg",
        ];
        for role in &roles {
            assert!(
                theme.color(role).is_some(),
                "Theme '{}' missing color role '{}'",
                name,
                role
            );
        }
    }
}
