//! Output format selection and the shaping of values for table display.
//!
//! Rendering itself (tables, colors, printing) is the caller's business;
//! this module decides what each cell holds: identifiers cut to a fixed
//! width with an ellipsis, dates reduced to their day, and status names.

use vstd::prelude::*;

use crate::assistants::Assistant;
use crate::deployments::Deployment;
use crate::error::LangstarError;
use crate::prompts::Prompt;
use crate::text::{lower, prefix_to, take_until, to_ascii_lower, truncate_for_display, truncated, str_eq};

verus! {

/// Output format for displaying data.
#[derive(Debug, Clone, Copy, PartialEq, Eq, Structural)]
pub enum OutputFormat {
    /// Machine-readable JSON.
    Json,
    /// Human-readable tables.
    Table,
}

/// The format a name selects, compared without regard to ASCII case.
pub open spec fn format_of(s: Seq<char>) -> Option<OutputFormat> {
    if lower(s) == "json"@ {
        Some(OutputFormat::Json)
    } else if lower(s) == "table"@ {
        Some(OutputFormat::Table)
    } else {
        None
    }
}

impl OutputFormat {
    /// Parse a format name, ignoring ASCII case. Anything but "json" and
    /// "table" is a configuration error naming the valid values.
    pub fn from_str(s: &str) -> (r: Result<OutputFormat, LangstarError>)
        ensures
            (match format_of(s@) {
                Some(f) => r == Ok::<OutputFormat, LangstarError>(f),
                None => r matches Err(e) && e matches LangstarError::ConfigError(m) && m@
                    == "Invalid output format: "@ + s@ + ". Valid formats: json, table"@,
            }),
    {
        let lowered = to_ascii_lower(s);
        if str_eq(lowered.as_str(), "json") {
            Ok(OutputFormat::Json)
        } else if str_eq(lowered.as_str(), "table") {
            Ok(OutputFormat::Table)
        } else {
            let msg = "Invalid output format: ".to_owned().concat(s).concat(
                ". Valid formats: json, table",
            );
            proof {
                assert(msg@ =~= "Invalid output format: "@ + s@ + ". Valid formats: json, table"@);
            }
            Err(LangstarError::ConfigError(msg))
        }
    }
}

/// The format a command runs with: the explicit choice when one was given
/// on the command line, otherwise the configured default; either may be
/// rejected as invalid.
pub fn effective_format(cli_format: Option<String>, config_format: &str) -> (r: Result<
    OutputFormat,
    LangstarError,
>)
    ensures
        (match cli_format {
            Some(s) => (match format_of(s@) {
                Some(f) => r == Ok::<OutputFormat, LangstarError>(f),
                None => r is Err,
            }),
            None => (match format_of(config_format@) {
                Some(f) => r == Ok::<OutputFormat, LangstarError>(f),
                None => r is Err,
            }),
        }),
{
    match cli_format {
        Some(s) => OutputFormat::from_str(s.as_str()),
        None => OutputFormat::from_str(config_format),
    }
}

/// Formatter for command results; the chosen format decides which of the
/// caller's renderers runs.
pub struct OutputFormatter {
    /// The format every result of this command is rendered in.
    pub format: OutputFormat,
}

impl OutputFormatter {
    /// Create a new formatter with the given format.
    pub fn new(format: OutputFormat) -> (r: Self)
        ensures
            r.format == format,
    {
        Self { format }
    }
}

/// The date part of a timestamp: everything before the first 'T', which
/// for the APIs' timestamps is the calendar day.
pub open spec fn date_part_spec(s: Seq<char>) -> Seq<char> {
    prefix_to(s, 'T')
}

/// A deployment reduced to one table row.
pub struct DeploymentRow {
    pub name: String,
    pub id: String,
    pub status: String,
    pub deployment_type: String,
    pub source: String,
    pub created_at: String,
}

/// Shape one deployment for table display: the ID cut to 20 characters,
/// the name to 30, the timestamp reduced to its day. The deployment type
/// is not in the listing response, so its cell is a placeholder.
pub fn deployment_row(d: &Deployment) -> (r: DeploymentRow)
    ensures
        r.name@ == truncated(d.name@, 30),
        r.id@ == truncated(d.id@, 20),
        r.status@ == d.status.label_spec(),
        r.deployment_type@ == "N/A"@,
        r.source@ == d.source.label_spec(),
        r.created_at@ == date_part_spec(d.created_at@),
{
    DeploymentRow {
        name: truncate_for_display(d.name.as_str(), 30),
        id: truncate_for_display(d.id.as_str(), 20),
        status: d.status.label().to_owned(),
        deployment_type: "N/A".to_owned(),
        source: d.source.label().to_owned(),
        created_at: take_until(d.created_at.as_str(), 'T'),
    }
}

/// An assistant reduced to one table row.
pub struct AssistantRow {
    pub assistant_id: String,
    pub name: String,
    pub graph_id: String,
    pub created_at: String,
}

/// Shape one assistant for table display: identifiers cut to 16
/// characters, the name to 30, a missing timestamp shown as a
/// placeholder.
pub fn assistant_row(a: &Assistant) -> (r: AssistantRow)
    ensures
        r.assistant_id@ == truncated(a.assistant_id@, 16),
        r.name@ == truncated(a.name@, 30),
        r.graph_id@ == truncated(a.graph_id@, 16),
        (match a.created_at {
            Some(t) => r.created_at@ == date_part_spec(t@),
            None => r.created_at@ == "N/A"@,
        }),
{
    AssistantRow {
        assistant_id: truncate_for_display(a.assistant_id.as_str(), 16),
        name: truncate_for_display(a.name.as_str(), 30),
        graph_id: truncate_for_display(a.graph_id.as_str(), 16),
        created_at: match &a.created_at {
            Some(t) => take_until(t.as_str(), 'T'),
            None => "N/A".to_owned(),
        },
    }
}

/// A prompt reduced to one table row.
pub struct PromptRow {
    pub repo_handle: String,
    pub num_likes: u32,
    pub num_downloads: u32,
    pub is_public: String,
    pub description: String,
}

/// Shape one prompt for table display: the public flag as "yes"/"no", the
/// description cut to 50 characters, a missing description left empty.
pub fn prompt_row(p: &Prompt) -> (r: PromptRow)
    ensures
        r.repo_handle@ == p.repo_handle@,
        r.num_likes == p.num_likes,
        r.num_downloads == p.num_downloads,
        p.is_public ==> r.is_public@ == "yes"@,
        !p.is_public ==> r.is_public@ == "no"@,
        (match p.description {
            Some(d) => r.description@ == truncated(d@, 50),
            None => r.description@ == Seq::<char>::empty(),
        }),
{
    PromptRow {
        repo_handle: p.repo_handle.clone(),
        num_likes: p.num_likes,
        num_downloads: p.num_downloads,
        is_public: if p.is_public {
            "yes".to_owned()
        } else {
            "no".to_owned()
        },
        description: match &p.description {
            Some(d) => truncate_for_display(d.as_str(), 50),
            None => String::new(),
        },
    }
}

} // verus!
