//! The `${name}` references in a template's texts, and what it means for
//! them all to be defined.

use vstd::prelude::*;
use crate::types::pipeline::{PipelineStep, StepAction};
use crate::types::template::ServerTemplate;

verus! {

/// Position of the first `}` in `s` at or after `i`.
pub open spec fn close_from(s: Seq<char>, i: int) -> Option<int>
    decreases s.len() - i,
{
    if i < 0 || i >= s.len() {
        None
    } else if s[i] == '}' {
        Some(i)
    } else {
        close_from(s, i + 1)
    }
}

/// The names of the `${name}` references in `s` from position `i` on, in
/// order: each `${` up to the next `}`; an empty name is no reference, and
/// an unclosed `${` ends the scan.
pub open spec fn refs_from(s: Seq<char>, i: int) -> Seq<Seq<char>>
    decreases s.len() - i,
{
    if i < 0 || i + 1 >= s.len() {
        seq![]
    } else if s[i] == '$' && s[i + 1] == '{' {
        match close_from(s, i + 2) {
            Some(j) => if i < j < s.len() {
                if j > i + 2 {
                    seq![s.subrange(i + 2, j)] + refs_from(s, j + 1)
                } else {
                    refs_from(s, j + 1)
                }
            } else {
                seq![]
            },
            None => seq![],
        }
    } else {
        refs_from(s, i + 1)
    }
}

/// The names of the `${name}` references in `s`.
pub open spec fn var_refs(s: Seq<char>) -> Seq<Seq<char>> {
    refs_from(s, 0)
}

/// `s[i..j)` holds no `$`.
pub open spec fn no_dollar(s: Seq<char>, i: int, j: int) -> bool {
    forall|k: int| i <= k < j ==> s[k] != '$'
}

/// No reference starts in a stretch without `$`.
pub proof fn lemma_refs_skip(s: Seq<char>, i: int, j: int)
    requires
        0 <= i <= j <= s.len(),
        no_dollar(s, i, j),
    ensures
        refs_from(s, i) == refs_from(s, j),
    decreases j - i,
{
    if i < j {
        lemma_refs_skip(s, i + 1, j);
    }
}

/// A `$` that no `{` follows starts no reference.
pub proof fn lemma_refs_lone_dollar(s: Seq<char>, i: int)
    requires
        0 <= i < s.len(),
        s[i] == '$',
        i + 1 < s.len() ==> s[i + 1] != '{',
    ensures
        refs_from(s, i) == refs_from(s, i + 1),
{
}

/// A text without `$` has no references.
pub proof fn lemma_no_refs(s: Seq<char>)
    requires
        no_dollar(s, 0, s.len() as int),
    ensures
        var_refs(s) == Seq::<Seq<char>>::empty(),
{
    lemma_refs_skip(s, 0, s.len() as int);
}

/// The first `}` at or after `i` is at `j`.
pub proof fn lemma_close_at(s: Seq<char>, i: int, j: int)
    requires
        0 <= i <= j < s.len(),
        s[j] == '}',
        forall|k: int| i <= k < j ==> s[k] != '}',
    ensures
        close_from(s, i) == Some(j),
    decreases j - i,
{
    if i < j {
        lemma_close_at(s, i + 1, j);
    }
}

/// The reference `${name}` that starts at `i` and closes at `j`.
pub proof fn lemma_ref_at(s: Seq<char>, i: int, j: int)
    requires
        0 <= i,
        i + 2 < j < s.len(),
        s[i] == '$',
        s[i + 1] == '{',
        s[j] == '}',
        forall|k: int| i + 2 <= k < j ==> s[k] != '}',
    ensures
        refs_from(s, i) == seq![s.subrange(i + 2, j)] + refs_from(s, j + 1),
{
    lemma_close_at(s, i + 2, j);
}

/// The variables every pipeline and command line may use.
pub open spec fn builtin_var(name: Seq<char>) -> bool {
    name == "server_dir"@ || name == "server_id"@ || name == "server_name"@
}

/// The action stores a value in the variable `name`.
pub open spec fn resolves(a: StepAction, name: Seq<char>) -> bool {
    a matches StepAction::ResolveVariable { variable, .. } && variable@ == name
}

/// `name` is defined for step `j` of `steps` in template `t`: a parameter
/// of `t`, a built-in variable, or the variable of an earlier
/// `ResolveVariable` step.
pub open spec fn defined_at(t: ServerTemplate, steps: Seq<PipelineStep>, j: int, name: Seq<char>) -> bool {
    ||| exists|p: int|
        0 <= p < t.config.parameters@.len() && (#[trigger] t.config.parameters@[p]).name@ == name
    ||| builtin_var(name)
    ||| exists|i: int|
        0 <= i < j && resolves(#[trigger] steps[i].action, name)
}

/// Every reference in `x` is defined for step `j`.
pub open spec fn refs_defined(x: Seq<char>, t: ServerTemplate, steps: Seq<PipelineStep>, j: int) -> bool {
    forall|r: int| 0 <= r < var_refs(x).len() ==> defined_at(t, steps, j, #[trigger] var_refs(x)[r])
}

/// Every reference in an optional text is defined for step `j`.
pub open spec fn opt_refs_defined(
    x: Option<String>,
    t: ServerTemplate,
    steps: Seq<PipelineStep>,
    j: int,
) -> bool {
    match x {
        Some(s) => refs_defined(s@, t, steps, j),
        None => true,
    }
}

/// Every reference in a list of texts is defined for step `j`.
pub open spec fn all_refs_defined(
    xs: Seq<String>,
    t: ServerTemplate,
    steps: Seq<PipelineStep>,
    j: int,
) -> bool {
    forall|k: int| 0 <= k < xs.len() ==> refs_defined((#[trigger] xs[k])@, t, steps, j)
}

/// Every reference in the texts of step `j`'s action (those a pipeline
/// substitutes) is defined.
pub open spec fn action_refs_defined(t: ServerTemplate, steps: Seq<PipelineStep>, j: int) -> bool {
    let rd = |x: Seq<char>| refs_defined(x, t, steps, j);
    match steps[j].action {
        StepAction::Download { url, destination, filename, .. } => rd(url@) && rd(destination@)
            && opt_refs_defined(filename, t, steps, j),
        StepAction::Extract { source, destination, .. } => rd(source@) && opt_refs_defined(
            destination,
            t,
            steps,
            j,
        ),
        StepAction::MoveAction { source, destination } => rd(source@) && rd(destination@),
        StepAction::Copy { source, destination, .. } => rd(source@) && rd(destination@),
        StepAction::Delete { path, .. } => rd(path@),
        StepAction::CreateDir { path } => rd(path@),
        StepAction::RunCommand { command, args, .. } => rd(command@) && all_refs_defined(
            args@,
            t,
            steps,
            j,
        ),
        StepAction::WriteFile { path, content } => rd(path@) && rd(content@),
        StepAction::EditFile { path, .. } => rd(path@),
        StepAction::SetPermissions { path, mode } => rd(path@) && rd(mode@),
        StepAction::Glob { pattern, destination } => rd(pattern@) && rd(destination@),
        StepAction::SetEnv { variables } => forall|k: int|
            0 <= k < variables@.len() ==> rd((#[trigger] variables@[k]).1@),
        StepAction::SetWorkingDir { path } => rd(path@),
        StepAction::SetStopCommand { command } => rd(command@),
        StepAction::SetStopSignal { .. } => true,
        StepAction::SendInput { text } => rd(text@),
        StepAction::SendSignal { .. } => true,
        StepAction::Sleep { .. } => true,
        StepAction::WaitForOutput { pattern, .. } => rd(pattern@),
        StepAction::ResolveVariable { url, .. } => rd(url@),
        StepAction::DownloadGithubReleaseAsset {
            tag_param,
            asset_matcher,
            destination,
            filename,
            ..
        } => rd(tag_param@) && rd(asset_matcher@) && rd(destination@) && opt_refs_defined(
            filename,
            t,
            steps,
            j,
        ),
        StepAction::DownloadCurseForgeFile { file_param, destination, filename, .. } => rd(
            file_param@,
        ) && rd(destination@) && opt_refs_defined(filename, t, steps, j),
        StepAction::SteamCmdInstall { extra_args, .. } => all_refs_defined(extra_args@, t, steps, j),
        StepAction::SteamCmdUpdate { extra_args, .. } => all_refs_defined(extra_args@, t, steps, j),
    }
}

/// Every reference in the steps of a phase is defined where it is used.
pub open spec fn phase_refs_defined(t: ServerTemplate, steps: Seq<PipelineStep>) -> bool {
    forall|j: int| 0 <= j < steps.len() ==> #[trigger] action_refs_defined_at(t, steps, j)
}

/// [`action_refs_defined`], as a trigger for each step.
pub open spec fn action_refs_defined_at(t: ServerTemplate, steps: Seq<PipelineStep>, j: int) -> bool {
    action_refs_defined(t, steps, j)
}

} // verus!
