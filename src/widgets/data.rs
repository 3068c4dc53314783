//! The session snapshot a status line is rendered from. Every field is
//! optional: absence is an ordinary state. Fractional values (cost,
//! percentages) are held in millionths, so `0.0842` dollars is `84_200`
//! and `42.5` percent is `42_500_000`.
use vstd::prelude::*;

verus! {

#[derive(Clone, Debug, Default)]
pub struct Model {
    pub id: Option<String>,
    pub display_name: Option<String>,
}

#[derive(Clone, Debug, Default)]
pub struct Workspace {
    pub current_dir: Option<String>,
    pub project_dir: Option<String>,
}

#[derive(Clone, Debug, Default)]
pub struct OutputStyle {
    pub name: Option<String>,
}

#[derive(Clone, Debug, Default)]
pub struct Cost {
    /// Millionths of a US dollar.
    pub total_cost_usd: Option<u64>,
    pub total_duration_ms: Option<u64>,
    pub total_api_duration_ms: Option<u64>,
    pub total_lines_added: Option<u64>,
    pub total_lines_removed: Option<u64>,
}

#[derive(Clone, Debug, Default)]
pub struct CurrentUsage {
    pub input_tokens: Option<u64>,
    pub output_tokens: Option<u64>,
    pub cache_creation_input_tokens: Option<u64>,
    pub cache_read_input_tokens: Option<u64>,
}

#[derive(Clone, Debug, Default)]
pub struct ContextWindow {
    pub total_input_tokens: Option<u64>,
    pub total_output_tokens: Option<u64>,
    pub context_window_size: Option<u64>,
    /// Millionths of a percent.
    pub used_percentage: Option<u64>,
    /// Millionths of a percent.
    pub remaining_percentage: Option<u64>,
    pub current_usage: Option<CurrentUsage>,
}

#[derive(Clone, Debug, Default)]
pub struct Vim {
    pub mode: Option<String>,
}

#[derive(Clone, Debug, Default)]
pub struct Agent {
    pub name: Option<String>,
}

#[derive(Clone, Debug, Default)]
pub struct SessionData {
    pub cwd: Option<String>,
    pub session_id: Option<String>,
    pub transcript_path: Option<String>,
    pub model: Option<Model>,
    pub workspace: Option<Workspace>,
    pub version: Option<String>,
    pub output_style: Option<OutputStyle>,
    pub cost: Option<Cost>,
    pub context_window: Option<ContextWindow>,
    pub exceeds_200k_tokens: Option<bool>,
    pub vim: Option<Vim>,
    pub agent: Option<Agent>,
}

impl SessionData {
    /// The token counts of the latest request, if reported.
    pub open spec fn usage(self) -> Option<CurrentUsage> {
        match self.context_window {
            Some(cw) => cw.current_usage,
            None => None,
        }
    }

    pub open spec fn input_tokens(self) -> Option<u64> {
        match self.usage() {
            Some(u) => u.input_tokens,
            None => None,
        }
    }

    pub open spec fn output_tokens(self) -> Option<u64> {
        match self.usage() {
            Some(u) => u.output_tokens,
            None => None,
        }
    }

    pub open spec fn cache_creation_tokens(self) -> Option<u64> {
        match self.usage() {
            Some(u) => u.cache_creation_input_tokens,
            None => None,
        }
    }

    pub open spec fn cache_read_tokens(self) -> Option<u64> {
        match self.usage() {
            Some(u) => u.cache_read_input_tokens,
            None => None,
        }
    }

    pub open spec fn used_percentage(self) -> Option<u64> {
        match self.context_window {
            Some(cw) => cw.used_percentage,
            None => None,
        }
    }

    pub open spec fn cost_usd(self) -> Option<u64> {
        match self.cost {
            Some(c) => c.total_cost_usd,
            None => None,
        }
    }

    pub open spec fn duration_ms(self) -> Option<u64> {
        match self.cost {
            Some(c) => c.total_duration_ms,
            None => None,
        }
    }

    pub open spec fn api_duration_ms(self) -> Option<u64> {
        match self.cost {
            Some(c) => c.total_api_duration_ms,
            None => None,
        }
    }

    pub open spec fn lines_added(self) -> Option<u64> {
        match self.cost {
            Some(c) => c.total_lines_added,
            None => None,
        }
    }

    pub open spec fn lines_removed(self) -> Option<u64> {
        match self.cost {
            Some(c) => c.total_lines_removed,
            None => None,
        }
    }

    /// Latest-request token counts, each `None` when not reported.
    pub fn usage_counts(&self) -> (r: (Option<u64>, Option<u64>, Option<u64>, Option<u64>))
        ensures
            r == (self.input_tokens(), self.output_tokens(), self.cache_creation_tokens(), self.cache_read_tokens()),
    {
        match &self.context_window {
            Some(cw) => match &cw.current_usage {
                Some(u) => (
                    u.input_tokens,
                    u.output_tokens,
                    u.cache_creation_input_tokens,
                    u.cache_read_input_tokens,
                ),
                None => (None, None, None, None),
            },
            None => (None, None, None, None),
        }
    }

    /// Used share of the context window, in millionths of a percent.
    pub fn used_percentage_value(&self) -> (r: Option<u64>)
        ensures
            r == self.used_percentage(),
    {
        match &self.context_window {
            Some(cw) => cw.used_percentage,
            None => None,
        }
    }

    /// Cost figures: dollars (millionths), duration, API duration, lines
    /// added and lines removed.
    pub fn cost_figures(&self) -> (r: (Option<u64>, Option<u64>, Option<u64>, Option<u64>, Option<u64>))
        ensures
            r == (self.cost_usd(), self.duration_ms(), self.api_duration_ms(), self.lines_added(), self.lines_removed()),
    {
        match &self.cost {
            Some(c) => (
                c.total_cost_usd,
                c.total_duration_ms,
                c.total_api_duration_ms,
                c.total_lines_added,
                c.total_lines_removed,
            ),
            None => (None, None, None, None, None),
        }
    }
}

} // verus!
