//! The read-only status command for the harness posture.
use vstd::prelude::*;

use crate::app_state::{App, PathStep, RepoLaw};
use crate::harness::{
    HarnessCompactionStrategy, HarnessPostureKind, HarnessSafetyPosture, HarnessSource,
    HarnessToolSurface,
};
use crate::text::{decimal, padded, push_decimal, push_padded, same_text};
use crate::workspace::WorkspacePath;

verus! {

/// Which localised text describes a command.
#[derive(Debug, Clone, Copy, PartialEq, Eq, Structural)]
pub enum MessageId {
    CmdHarnessDescription,
}

/// How a command is listed and called.
#[derive(Debug)]
pub struct CommandInfo {
    pub name: &'static str,
    pub aliases: Vec<&'static str>,
    pub usage: &'static str,
    pub description_id: MessageId,
}

/// What a command gives back.
#[derive(Debug)]
pub struct CommandResult {
    pub message: Option<String>,
}

/// The label of a posture kind.
pub open spec fn kind_label(kind: HarnessPostureKind) -> Seq<char> {
    match kind {
        HarnessPostureKind::Standard => "standard"@,
        HarnessPostureKind::CacheHeavy => "cache-heavy"@,
        HarnessPostureKind::Lean => "lean"@,
        HarnessPostureKind::Custom => "custom"@,
    }
}

/// The label of a posture kind.
pub fn posture_kind_label(kind: HarnessPostureKind) -> (label: &'static str)
    ensures
        label@ == kind_label(kind),
{
    match kind {
        HarnessPostureKind::Standard => "standard",
        HarnessPostureKind::CacheHeavy => "cache-heavy",
        HarnessPostureKind::Lean => "lean",
        HarnessPostureKind::Custom => "custom",
    }
}

/// The label of a source.
pub open spec fn source_label(source: HarnessSource) -> Seq<char> {
    match source {
        HarnessSource::UserProfile => "user config"@,
        HarnessSource::BuiltInSeed => "built-in seed"@,
        HarnessSource::Default => "default (no match)"@,
    }
}

/// The label of a source.
pub fn harness_source_label(source: HarnessSource) -> (label: &'static str)
    ensures
        label@ == source_label(source),
{
    match source {
        HarnessSource::UserProfile => "user config",
        HarnessSource::BuiltInSeed => "built-in seed",
        HarnessSource::Default => "default (no match)",
    }
}

/// The label of a compaction strategy.
pub open spec fn strategy_label(strategy: HarnessCompactionStrategy) -> Seq<char> {
    match strategy {
        HarnessCompactionStrategy::Default => "default"@,
        HarnessCompactionStrategy::PrefixCache => "prefix-cache"@,
        HarnessCompactionStrategy::Aggressive => "aggressive"@,
    }
}

/// The label of a compaction strategy.
pub fn compaction_strategy_label(strategy: HarnessCompactionStrategy) -> (label: &'static str)
    ensures
        label@ == strategy_label(strategy),
{
    match strategy {
        HarnessCompactionStrategy::Default => "default",
        HarnessCompactionStrategy::PrefixCache => "prefix-cache",
        HarnessCompactionStrategy::Aggressive => "aggressive",
    }
}

/// The label of a tool surface.
pub open spec fn surface_label(surface: HarnessToolSurface) -> Seq<char> {
    match surface {
        HarnessToolSurface::Full => "full"@,
        HarnessToolSurface::ReadOnly => "read-only"@,
        HarnessToolSurface::Auto => "auto"@,
    }
}

/// The label of a tool surface.
pub fn tool_surface_label(surface: HarnessToolSurface) -> (label: &'static str)
    ensures
        label@ == surface_label(surface),
{
    match surface {
        HarnessToolSurface::Full => "full",
        HarnessToolSurface::ReadOnly => "read-only",
        HarnessToolSurface::Auto => "auto",
    }
}

/// The label of a safety posture.
pub open spec fn safety_label(posture: HarnessSafetyPosture) -> Seq<char> {
    match posture {
        HarnessSafetyPosture::Standard => "standard"@,
        HarnessSafetyPosture::Strict => "strict"@,
        HarnessSafetyPosture::Permissive => "permissive"@,
    }
}

/// The label of a safety posture.
pub fn safety_posture_label(posture: HarnessSafetyPosture) -> (label: &'static str)
    ensures
        label@ == safety_label(posture),
{
    match posture {
        HarnessSafetyPosture::Standard => "standard",
        HarnessSafetyPosture::Strict => "strict",
        HarnessSafetyPosture::Permissive => "permissive",
    }
}

/// A row: the label in a column of twelve characters, then the value.
pub open spec fn row_text(label: Seq<char>, value: Seq<char>) -> Seq<char> {
    "  "@ + padded(label, 12) + " "@ + value + "\n"@
}

/// Appends a row.
pub fn push_row(out: &mut String, label: &str, value: &str)
    ensures
        final(out)@ == old(out)@ + row_text(label@, value@),
{
    out.append("  ");
    push_padded(out, label, 12);
    out.append(" ");
    out.append(value);
    out.append("\n");
    assert(out@ =~= old(out)@ + row_text(label@, value@));
}

/// Whether a path lies in the workspace: the components of the workspace come first in it.
pub open spec fn lies_inside(workspace: Seq<Seq<char>>, steps: Seq<PathStep>) -> bool {
    &&& workspace.len() <= steps.len()
    &&& forall|i: int|
        0 <= i < workspace.len() ==> #[trigger] workspace[i] == steps[i].component@
}

/// How the path of the constitution is shown: inside the workspace by what follows the
/// workspace in it, elsewhere as the application shows paths.
pub open spec fn law_path_text(workspace: Seq<Seq<char>>, law: RepoLaw) -> Seq<char> {
    if !lies_inside(workspace, law.steps@) {
        law.display@
    } else if workspace.len() == 0 {
        law.path@
    } else {
        law.steps@[workspace.len() - 1].rest@
    }
}

/// How the path of the constitution is shown.
pub fn repo_law_display_path(workspace: &WorkspacePath, law: &RepoLaw) -> (shown: String)
    ensures
        shown@ == law_path_text(workspace@, *law),
{
    let depth: usize = workspace.components.len();
    if depth > law.steps.len() {
        return law.display.clone();
    }
    let mut i: usize = 0;
    while i < depth
        invariant
            depth == workspace.components@.len(),
            depth <= law.steps@.len(),
            i <= depth,
            forall|j: int| 0 <= j < i ==> #[trigger] workspace@[j] == law.steps@[j].component@,
        decreases depth - i,
    {
        assert(workspace@[i as int] == workspace.components@[i as int]@);
        if !same_text(workspace.components[i].as_str(), law.steps[i].component.as_str()) {
            return law.display.clone();
        }
        i += 1;
    }
    if depth == 0 {
        law.path.clone()
    } else {
        law.steps[depth - 1].rest.clone()
    }
}

/// The repository's law: where its constitution lies, or that there is none.
pub open spec fn repo_law_text(app: App) -> Seq<char> {
    match app.repo_law {
        Some(law) => law_path_text(app.workspace@, law),
        None => "none"@,
    }
}

/// The repository's law, as the status shows it.
pub fn format_repo_law(app: &App) -> (shown: String)
    ensures
        shown@ == repo_law_text(*app),
{
    match &app.repo_law {
        Some(law) => repo_law_display_path(&app.workspace, law),
        None => "none".to_string(),
    }
}

/// The line that names the posture and its source.
pub open spec fn posture_line(app: App) -> Seq<char> {
    "  "@ + padded("Posture:"@, 12) + " "@ + kind_label(app.active_harness_resolution.posture.kind)
        + "            (source: "@ + source_label(app.active_harness_resolution.source) + ")\n"@
}

/// The line that lists the knobs of the posture.
pub open spec fn knobs_line(app: App) -> Seq<char> {
    let posture = app.active_harness_resolution.posture;
    "             max_subagents="@ + decimal(posture.max_subagents as nat)
        + " (live)  compaction="@ + strategy_label(posture.compaction_strategy)
        + " (live)  tools="@ + surface_label(posture.tool_surface) + "  safety="@ + safety_label(
        posture.safety_posture,
    ) + "\n"@
}

/// The status of the harness posture.
pub open spec fn status_text(app: App) -> Seq<char> {
    "Harness profile (compaction strategy and max_subagents are live; other knobs are preview)\n"@
        + "\n"@ + row_text("Provider"@, app.active_provider_route@) + row_text(
        "Model"@,
        app.model_display_label@,
    ) + posture_line(app) + knobs_line(app) + row_text("Repo law"@, repo_law_text(app))
}

/// The status of the harness posture, as the user sees it.
pub fn format_harness_status(app: &App) -> (status: String)
    ensures
        status@ == status_text(*app),
{
    let posture = &app.active_harness_resolution.posture;
    let mut out: String = String::new();
    out.append(
        "Harness profile (compaction strategy and max_subagents are live; other knobs are preview)\n",
    );
    out.append("\n");
    push_row(&mut out, "Provider", app.active_provider_route.as_str());
    push_row(&mut out, "Model", app.model_display_label.as_str());
    let ghost head = out@;
    out.append("  ");
    push_padded(&mut out, "Posture:", 12);
    out.append(" ");
    out.append(posture_kind_label(posture.kind));
    out.append("            (source: ");
    out.append(harness_source_label(app.active_harness_resolution.source));
    out.append(")\n");
    assert(out@ =~= head + posture_line(*app));
    let ghost middle = out@;
    out.append("             max_subagents=");
    push_decimal(&mut out, posture.max_subagents as u128);
    out.append(" (live)  compaction=");
    out.append(compaction_strategy_label(posture.compaction_strategy));
    out.append(" (live)  tools=");
    out.append(tool_surface_label(posture.tool_surface));
    out.append("  safety=");
    out.append(safety_posture_label(posture.safety_posture));
    out.append("\n");
    assert(out@ =~= middle + knobs_line(*app));
    let law: String = format_repo_law(app);
    push_row(&mut out, "Repo law", law.as_str());
    assert(out@ =~= status_text(*app));
    out
}

/// The command that shows the harness posture.
pub struct HarnessCmd {}

impl HarnessCmd {
    /// How the command is listed and called.
    pub fn info() -> (info: CommandInfo)
        ensures
            info.name@ == "harness"@,
            info.aliases@.len() == 0,
            info.usage@ == "/harness"@,
            info.description_id == MessageId::CmdHarnessDescription,
    {
        CommandInfo {
            name: "harness",
            aliases: Vec::new(),
            usage: "/harness",
            description_id: MessageId::CmdHarnessDescription,
        }
    }

    /// Runs the command: it shows the status and changes nothing.
    pub fn execute(app: &mut App, _arg: Option<&str>) -> (result: CommandResult)
        ensures
            *final(app) == *old(app),
            result.message is Some,
            result.message->0@ == status_text(*old(app)),
    {
        CommandResult { message: Some(format_harness_status(app)) }
    }
}

} // verus!
