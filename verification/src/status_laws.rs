//! What the status command shows.
use vstd::prelude::*;

use crate::app_state::App;
use crate::harness::{
    HarnessCompactionStrategy, HarnessPosture, HarnessPostureKind, HarnessSafetyPosture,
    HarnessSource, HarnessToolSurface,
};
use crate::harness_status::{
    kind_label, knobs_line, lies_inside, posture_line, repo_law_text, row_text, safety_label,
    source_label, status_text, strategy_label, surface_label,
};
use crate::text::{decimal, padded};

verus! {

/// Law: each posture kind, strategy, tool surface and safety stance is shown under the name
/// that it has in a configuration file, and each source in words.
pub proof fn law_labels_name_what_they_stand_for(posture: HarnessPosture, source: HarnessSource)
    ensures
        posture.kind == HarnessPostureKind::Standard ==> kind_label(posture.kind) == "standard"@,
        posture.kind == HarnessPostureKind::CacheHeavy ==> kind_label(posture.kind)
            == "cache-heavy"@,
        posture.kind == HarnessPostureKind::Lean ==> kind_label(posture.kind) == "lean"@,
        posture.kind == HarnessPostureKind::Custom ==> kind_label(posture.kind) == "custom"@,
        strategy_label(posture.compaction_strategy) == (match posture.compaction_strategy {
            HarnessCompactionStrategy::Aggressive => "aggressive"@,
            HarnessCompactionStrategy::PrefixCache => "prefix-cache"@,
            HarnessCompactionStrategy::Default => "default"@,
        }),
        surface_label(posture.tool_surface) == (match posture.tool_surface {
            HarnessToolSurface::Auto => "auto"@,
            HarnessToolSurface::ReadOnly => "read-only"@,
            HarnessToolSurface::Full => "full"@,
        }),
        safety_label(posture.safety_posture) == (match posture.safety_posture {
            HarnessSafetyPosture::Permissive => "permissive"@,
            HarnessSafetyPosture::Strict => "strict"@,
            HarnessSafetyPosture::Standard => "standard"@,
        }),
        source_label(source) == (match source {
            HarnessSource::Default => "default (no match)"@,
            HarnessSource::BuiltInSeed => "built-in seed"@,
            HarnessSource::UserProfile => "user config"@,
        }),
{
}

/// Law: no two posture kinds, strategies, tool surfaces, safety stances or sources are shown
/// alike.
pub proof fn law_labels_tell_apart(
    a: HarnessPosture,
    b: HarnessPosture,
    s: HarnessSource,
    t: HarnessSource,
)
    ensures
        kind_label(a.kind) == kind_label(b.kind) ==> a.kind == b.kind,
        strategy_label(a.compaction_strategy) == strategy_label(b.compaction_strategy)
            ==> a.compaction_strategy == b.compaction_strategy,
        surface_label(a.tool_surface) == surface_label(b.tool_surface) ==> a.tool_surface
            == b.tool_surface,
        safety_label(a.safety_posture) == safety_label(b.safety_posture) ==> a.safety_posture
            == b.safety_posture,
        source_label(s) == source_label(t) ==> s == t,
{
    reveal_strlit("standard");
    reveal_strlit("cache-heavy");
    reveal_strlit("lean");
    reveal_strlit("custom");
    reveal_strlit("user config");
    reveal_strlit("built-in seed");
    reveal_strlit("default (no match)");
    reveal_strlit("default");
    reveal_strlit("prefix-cache");
    reveal_strlit("aggressive");
    reveal_strlit("full");
    reveal_strlit("read-only");
    reveal_strlit("auto");
    reveal_strlit("strict");
    reveal_strlit("permissive");
    assert(kind_label(a.kind) == kind_label(b.kind) ==> kind_label(a.kind).len() == kind_label(
        b.kind,
    ).len());
    assert(strategy_label(a.compaction_strategy) == strategy_label(b.compaction_strategy)
        ==> strategy_label(a.compaction_strategy)[0] == strategy_label(b.compaction_strategy)[0]);
    assert(surface_label(a.tool_surface) == surface_label(b.tool_surface) ==> surface_label(
        a.tool_surface,
    )[0] == surface_label(b.tool_surface)[0]);
    assert(safety_label(a.safety_posture) == safety_label(b.safety_posture) ==> safety_label(
        a.safety_posture,
    ).len() == safety_label(b.safety_posture).len());
    assert(source_label(s) == source_label(t) ==> source_label(s)[0] == source_label(t)[0]);
}

/// `text` holds `part`, with `before` in front of it.
pub open spec fn holds_after(text: Seq<char>, before: Seq<char>, part: Seq<char>) -> bool {
    exists|i: int|
        0 <= i && i + before.len() + part.len() <= text.len() && #[trigger] text.subrange(
            i,
            i + before.len() + part.len(),
        ) == before + part
}

proof fn lemma_holds_after(
    head: Seq<char>,
    before: Seq<char>,
    part: Seq<char>,
    tail: Seq<char>,
    text: Seq<char>,
)
    requires
        text == head + before + part + tail,
    ensures
        holds_after(text, before, part),
{
    let i = head.len() as int;
    assert(text.subrange(i, i + before.len() + part.len()) =~= before + part);
}

proof fn lemma_holds_within(
    head: Seq<char>,
    text: Seq<char>,
    tail: Seq<char>,
    before: Seq<char>,
    part: Seq<char>,
)
    requires
        holds_after(text, before, part),
    ensures
        holds_after(head + text + tail, before, part),
{
    let i = choose|i: int|
        0 <= i && i + before.len() + part.len() <= text.len() && #[trigger] text.subrange(
            i,
            i + before.len() + part.len(),
        ) == before + part;
    let all = head + text + tail;
    let j = head.len() + i;
    assert(all.subrange(j, j + before.len() + part.len()) =~= text.subrange(
        i,
        i + before.len() + part.len(),
    ));
}

proof fn lemma_row_is_shown(label: Seq<char>, value: Seq<char>)
    ensures
        holds_after(row_text(label, value), "  "@ + padded(label, 12) + " "@, value + "\n"@),
{
    let name = "  "@ + padded(label, 12) + " "@;
    assert(row_text(label, value) =~= Seq::<char>::empty() + name + (value + "\n"@)
        + Seq::<char>::empty());
    lemma_holds_after(
        Seq::empty(),
        name,
        value + "\n"@,
        Seq::empty(),
        row_text(label, value),
    );
}

proof fn lemma_posture_is_shown(app: App)
    ensures
        holds_after(
            posture_line(app),
            "  "@ + padded("Posture:"@, 12) + " "@,
            kind_label(app.active_harness_resolution.posture.kind),
        ),
        holds_after(
            posture_line(app),
            "(source: "@,
            source_label(app.active_harness_resolution.source) + ")"@,
        ),
{
    let line = posture_line(app);
    let name = "  "@ + padded("Posture:"@, 12) + " "@;
    let kind = kind_label(app.active_harness_resolution.posture.kind);
    let source = source_label(app.active_harness_resolution.source);
    let tail = "            (source: "@ + source + ")\n"@;
    assert(line =~= Seq::<char>::empty() + name + kind + tail);
    lemma_holds_after(Seq::empty(), name, kind, tail, line);
    reveal_strlit("            (source: ");
    reveal_strlit("            ");
    reveal_strlit("(source: ");
    reveal_strlit(")\n");
    reveal_strlit(")");
    reveal_strlit("\n");
    assert("            (source: "@ =~= "            "@ + "(source: "@);
    assert(")\n"@ =~= ")"@ + "\n"@);
    let head = name + kind + "            "@;
    assert(line =~= head + "(source: "@ + (source + ")"@) + "\n"@);
    lemma_holds_after(head, "(source: "@, source + ")"@, "\n"@, line);
}

proof fn lemma_knobs_are_shown(app: App)
    ensures
        ({
            let text = knobs_line(app);
            let posture = app.active_harness_resolution.posture;
            &&& holds_after(
                text,
                "max_subagents="@,
                decimal(posture.max_subagents as nat) + " (live)"@,
            )
            &&& holds_after(
                text,
                "compaction="@,
                strategy_label(posture.compaction_strategy) + " (live)"@,
            )
            &&& holds_after(text, "tools="@, surface_label(posture.tool_surface) + "  "@)
            &&& holds_after(text, "safety="@, safety_label(posture.safety_posture) + "\n"@)
        }),
{
    let posture = app.active_harness_resolution.posture;
    let text = knobs_line(app);
    let tail = Seq::<char>::empty();
    let cap = decimal(posture.max_subagents as nat);
    let strategy = strategy_label(posture.compaction_strategy);
    let surface = surface_label(posture.tool_surface);
    let safety = safety_label(posture.safety_posture);
    reveal_strlit("             max_subagents=");
    reveal_strlit("             ");
    reveal_strlit("max_subagents=");
    reveal_strlit(" (live)  compaction=");
    reveal_strlit(" (live)");
    reveal_strlit("  ");
    reveal_strlit("compaction=");
    reveal_strlit(" (live)  tools=");
    reveal_strlit("tools=");
    reveal_strlit("  safety=");
    reveal_strlit("safety=");
    assert("             max_subagents="@ =~= "             "@ + "max_subagents="@);
    assert(" (live)  compaction="@ =~= " (live)"@ + "  "@ + "compaction="@);
    assert(" (live)  tools="@ =~= " (live)"@ + "  "@ + "tools="@);
    assert("  safety="@ =~= "  "@ + "safety="@);
    let h0 = "             "@;
    let t0 = "  "@ + "compaction="@ + strategy + " (live)  tools="@ + surface + "  safety="@ + safety
        + "\n"@ + tail;
    assert(text =~= h0 + "max_subagents="@ + (cap + " (live)"@) + t0);
    lemma_holds_after(h0, "max_subagents="@, cap + " (live)"@, t0, text);
    let h1 = h0 + "max_subagents="@ + cap + " (live)"@ + "  "@;
    let t1 = "  "@ + "tools="@ + surface + "  safety="@ + safety + "\n"@ + tail;
    assert(text =~= h1 + "compaction="@ + (strategy + " (live)"@) + t1);
    lemma_holds_after(h1, "compaction="@, strategy + " (live)"@, t1, text);
    let h2 = h1 + "compaction="@ + strategy + " (live)"@ + "  "@;
    let t2 = "safety="@ + safety + "\n"@ + tail;
    assert(text =~= h2 + "tools="@ + (surface + "  "@) + t2);
    lemma_holds_after(h2, "tools="@, surface + "  "@, t2, text);
    let h3 = h2 + "tools="@ + surface + "  "@;
    assert(text =~= h3 + "safety="@ + (safety + "\n"@) + tail);
    lemma_holds_after(h3, "safety="@, safety + "\n"@, tail, text);
}

proof fn lemma_names_are_aligned()
    ensures
        "  "@ + padded("Provider"@, 12) + " "@ == "  Provider     "@,
        "  "@ + padded("Model"@, 12) + " "@ == "  Model        "@,
        "  "@ + padded("Posture:"@, 12) + " "@ == "  Posture:     "@,
        "  "@ + padded("Repo law"@, 12) + " "@ == "  Repo law     "@,
{
    reveal_strlit("  ");
    reveal_strlit(" ");
    reveal_strlit("Provider");
    reveal_strlit("Model");
    reveal_strlit("Posture:");
    reveal_strlit("Repo law");
    reveal_strlit("  Provider     ");
    reveal_strlit("  Model        ");
    reveal_strlit("  Posture:     ");
    reveal_strlit("  Repo law     ");
    assert("  "@ + padded("Provider"@, 12) + " "@ =~= "  Provider     "@);
    assert("  "@ + padded("Model"@, 12) + " "@ =~= "  Model        "@);
    assert("  "@ + padded("Posture:"@, 12) + " "@ =~= "  Posture:     "@);
    assert("  "@ + padded("Repo law"@, 12) + " "@ =~= "  Repo law     "@);
}

/// Law: the status shows the provider route, the model, the posture with its source and its
/// knobs, and where the repository's law lies, each behind its name.
pub proof fn law_status_shows_everything(app: App)
    ensures
        holds_after(status_text(app), "  Provider     "@, app.active_provider_route@ + "\n"@),
        holds_after(status_text(app), "  Model        "@, app.model_display_label@ + "\n"@),
        holds_after(
            status_text(app),
            "  Posture:     "@,
            kind_label(app.active_harness_resolution.posture.kind),
        ),
        holds_after(
            status_text(app),
            "(source: "@,
            source_label(app.active_harness_resolution.source) + ")"@,
        ),
        holds_after(
            status_text(app),
            "max_subagents="@,
            decimal(app.active_harness_resolution.posture.max_subagents as nat) + " (live)"@,
        ),
        holds_after(
            status_text(app),
            "compaction="@,
            strategy_label(app.active_harness_resolution.posture.compaction_strategy)
                + " (live)"@,
        ),
        holds_after(
            status_text(app),
            "tools="@,
            surface_label(app.active_harness_resolution.posture.tool_surface) + "  "@,
        ),
        holds_after(
            status_text(app),
            "safety="@,
            safety_label(app.active_harness_resolution.posture.safety_posture) + "\n"@,
        ),
        holds_after(status_text(app), "  Repo law     "@, repo_law_text(app) + "\n"@),
{
    let posture = app.active_harness_resolution.posture;
    let header =
        "Harness profile (compaction strategy and max_subagents are live; other knobs are preview)\n"@
        + "\n"@;
    let provider = row_text("Provider"@, app.active_provider_route@);
    let model = row_text("Model"@, app.model_display_label@);
    let line = posture_line(app);
    let knobs = knobs_line(app);
    let law = row_text("Repo law"@, repo_law_text(app));
    lemma_names_are_aligned();
    lemma_row_is_shown("Provider"@, app.active_provider_route@);
    lemma_row_is_shown("Model"@, app.model_display_label@);
    lemma_row_is_shown("Repo law"@, repo_law_text(app));
    lemma_posture_is_shown(app);
    lemma_knobs_are_shown(app);
    lemma_parts_of_the_status(header, provider, model, line, knobs, law);
    let live = " (live)"@;
    let end = "\n"@;
    lemma_holds_within(
        header,
        provider,
        model + line + knobs + law,
        "  Provider     "@,
        app.active_provider_route@ + end,
    );
    lemma_holds_within(
        header + provider,
        model,
        line + knobs + law,
        "  Model        "@,
        app.model_display_label@ + end,
    );
    let head = header + provider + model;
    lemma_holds_within(
        head,
        line,
        knobs + law,
        "  Posture:     "@,
        kind_label(posture.kind),
    );
    lemma_holds_within(
        head,
        line,
        knobs + law,
        "(source: "@,
        source_label(app.active_harness_resolution.source) + ")"@,
    );
    lemma_holds_within(
        head + line,
        knobs,
        law,
        "max_subagents="@,
        decimal(posture.max_subagents as nat) + live,
    );
    lemma_holds_within(
        head + line,
        knobs,
        law,
        "compaction="@,
        strategy_label(posture.compaction_strategy) + live,
    );
    lemma_holds_within(
        head + line,
        knobs,
        law,
        "tools="@,
        surface_label(posture.tool_surface) + "  "@,
    );
    lemma_holds_within(
        head + line,
        knobs,
        law,
        "safety="@,
        safety_label(posture.safety_posture) + end,
    );
    lemma_holds_within(
        head + line + knobs,
        law,
        Seq::empty(),
        "  Repo law     "@,
        repo_law_text(app) + end,
    );
}

proof fn lemma_parts_of_the_status(
    header: Seq<char>,
    provider: Seq<char>,
    model: Seq<char>,
    line: Seq<char>,
    knobs: Seq<char>,
    law: Seq<char>,
)
    ensures
        ({
            let all = header + provider + model + line + knobs + law;
            &&& all == header + provider + (model + line + knobs + law)
            &&& all == (header + provider) + model + (line + knobs + law)
            &&& all == (header + provider + model) + line + (knobs + law)
            &&& all == (header + provider + model + line) + knobs + law
            &&& all == (header + provider + model + line + knobs) + law + Seq::<char>::empty()
        }),
{
    let all = header + provider + model + line + knobs + law;
    assert(all =~= header + provider + (model + line + knobs + law));
    assert(all =~= (header + provider) + model + (line + knobs + law));
    assert(all =~= (header + provider + model) + line + (knobs + law));
    assert(all =~= (header + provider + model + line + knobs) + law + Seq::<char>::empty());
}

/// Law: the status goes by what it shows: it is the same for two states that agree on the
/// route, the model, the resolution, the workspace and the repository's law.
pub proof fn law_status_depends_on_what_it_shows(a: App, b: App)
    requires
        a.active_provider_route == b.active_provider_route,
        a.model_display_label == b.model_display_label,
        a.active_harness_resolution == b.active_harness_resolution,
        a.workspace == b.workspace,
        a.repo_law == b.repo_law,
    ensures
        status_text(a) == status_text(b),
{
}

/// Law: a constitution inside the workspace is shown by what follows the workspace in its
/// path, one outside as the application shows paths, and none as such.
pub proof fn law_repo_law_is_shown_from_the_workspace_on(app: App)
    ensures
        app.repo_law is None ==> repo_law_text(app) == "none"@,
        app.repo_law matches Some(law) ==> {
            let depth = app.workspace.components@.len();
            let inside = depth <= law.steps@.len() && forall|i: int|
                0 <= i < depth ==> (#[trigger] app.workspace.components@[i])@
                    == law.steps@[i].component@;
            &&& !inside ==> repo_law_text(app) == law.display@
            &&& inside && depth > 0 ==> repo_law_text(app) == law.steps@[depth - 1].rest@
            &&& inside && depth == 0 ==> repo_law_text(app) == law.path@
        },
{
    if let Some(law) = app.repo_law {
        let workspace = app.workspace@;
        assert(workspace.len() == app.workspace.components@.len());
        assert(forall|i: int|
            0 <= i < workspace.len() ==> workspace[i] == (#[trigger] app.workspace.components@[i])@);
        if lies_inside(workspace, law.steps@) {
            assert forall|i: int| 0 <= i < workspace.len() implies (
            #[trigger] app.workspace.components@[i])@ == law.steps@[i].component@ by {
                assert(workspace[i] == law.steps@[i].component@);
            }
        } else if workspace.len() <= law.steps@.len() {
            let i = choose|i: int|
                0 <= i < workspace.len() && #[trigger] workspace[i] != law.steps@[i].component@;
            assert(app.workspace.components@[i]@ != law.steps@[i].component@);
        }
    }
}

} // verus!
