//! Per-file processing: one state machine per file, stepped by the
//! surrounding process. The machine decides everything — candidate name,
//! collision policy, auto-numbering — and only asks the outside for
//! existence answers and, at most once per file, the rename itself.

use vstd::prelude::*;
use crate::config::Config;
use crate::naming::{split_name, numbered_name, stem_of, ext_of, numbered_spec};
use crate::transform::{transform, transform_spec, is_fixed_point, RenameMode};

verus! {

/// A file's location as the surrounding process sees it: an opaque
/// directory prefix (everything up to and including the last separator,
/// possibly empty) and the filename proper.
#[derive(Debug, PartialEq)]
pub struct FilePath {
    pub dir: String,
    pub name: String,
}

impl FilePath {
    /// The full path: directory prefix followed by the filename.
    pub open spec fn full_spec(&self) -> Seq<char> {
        self.dir@ + self.name@
    }

    pub fn full(&self) -> (r: String)
        ensures
            r@ == self.full_spec(),
    {
        self.dir.clone().concat(self.name.as_str())
    }

    /// The same directory with the filename replaced.
    pub fn with_name(&self, name: String) -> (r: FilePath)
        ensures
            r.dir == self.dir,
            r.name == name,
    {
        FilePath { dir: self.dir.clone(), name }
    }

    fn duplicate(&self) -> (r: FilePath)
        ensures
            r == *self,
    {
        FilePath { dir: self.dir.clone(), name: self.name.clone() }
    }
}

/// A per-file failure; the run records it and continues.
#[derive(Debug, Clone, PartialEq)]
pub enum RenameError {
    /// The underlying filesystem operation failed; carries the offending
    /// path and the rendered cause.
    Io { path: String, message: String },
    /// The computed destination already exists and neither `force` nor
    /// `auto_number` was requested; carries the destination path.
    Collision(String),
    /// Enumerating a directory subtree failed; carries the rendered cause.
    Walkdir(String),
}

/// What one file's processing came to.
#[derive(Debug, PartialEq)]
pub enum RenameOutcome {
    /// The file was renamed.
    Renamed { from: String, to: String },
    /// The transform left the name as it was; nothing was done.
    Unchanged { path: String },
    /// A rename would have happened, but the run was a dry run.
    DryRunPreview { from: String, to: String },
    /// The entry was not a processable file and was passed over.
    Skipped,
}

/// The processing state between existence queries.
#[derive(Debug, PartialEq)]
pub enum ProcState {
    /// Waiting to learn whether the transformed candidate name is taken.
    Candidate { path: FilePath, candidate: String },
    /// Auto-numbering: waiting to learn whether the candidate numbered
    /// `idx` (built from `stem` and `ext`) is taken.
    Numbered { path: FilePath, stem: String, ext: String, idx: u64 },
}

/// What the surrounding process must do next for this file.
#[derive(Debug, PartialEq)]
pub enum ProcStep {
    /// Processing is over; no filesystem mutation is called for.
    Done(Result<RenameOutcome, RenameError>),
    /// Ask whether `name` exists in the file's directory and feed the
    /// answer to `on_exists` together with `state`.
    Query { name: String, state: ProcState },
    /// Perform the rename — the one filesystem mutation of this file's
    /// processing — and feed the result to `rename_result`.
    Rename { from: FilePath, to: FilePath },
}

/// The step that ends a file's processing with destination name `dest` in
/// the file's own directory: a dry-run preview outcome when `dry_run`, else
/// the request to rename.
pub open spec fn step_finishes(r: ProcStep, path: FilePath, dest: Seq<char>, dry_run: bool) -> bool {
    if dry_run {
        &&& r matches ProcStep::Done(res)
        &&& res matches Ok(o)
        &&& o matches RenameOutcome::DryRunPreview { from, to } && from@ == path.full_spec() && to@
            == path.dir@ + dest
    } else {
        &&& r matches ProcStep::Rename { from, to }
        &&& from == path
        &&& to.dir@ == path.dir@
        &&& to.name@ == dest
    }
}

/// The step that goes on auto-numbering: query the candidate numbered
/// `idx`, resuming from a state that carries the same stem and extension.
pub open spec fn queries_numbered(
    r: ProcStep,
    path: FilePath,
    stem: Seq<char>,
    ext: Seq<char>,
    idx: nat,
) -> bool {
    &&& r matches ProcStep::Query { name, state }
    &&& name@ == numbered_spec(stem, idx, ext)
    &&& state matches ProcState::Numbered { path: p, stem: s, ext: e, idx: i } && p == path && s@
        == stem && e@ == ext && i == idx
}

/// What starting a file's processing guarantees: a fixed point of the
/// transform ends at once as `Unchanged` with no filesystem action; any
/// other name leads to an existence query on the transformed candidate.
pub open spec fn start_post(r: ProcStep, path: FilePath, config: Config) -> bool {
    &&& (config.dry_run ==> !(r is Rename))
    &&& (is_fixed_point(config.mode, path.name@) ==> (r matches ProcStep::Done(res)
        && res matches Ok(o)
        && o matches RenameOutcome::Unchanged { path: p } && p@ == path.full_spec()))
    &&& (!is_fixed_point(config.mode, path.name@) ==> ({
        &&& r matches ProcStep::Query { name, state }
        &&& name@ == transform_spec(config.mode, path.name@)
        &&& state matches ProcState::Candidate { path: p, candidate: c } && p == path && c@
            == transform_spec(config.mode, path.name@)
    }))
}

fn finish(path: &FilePath, dest: String, dry_run: bool) -> (r: ProcStep)
    ensures
        step_finishes(r, *path, dest@, dry_run),
        dry_run ==> !(r is Rename),
{
    if dry_run {
        ProcStep::Done(
            Ok(
                RenameOutcome::DryRunPreview {
                    from: path.full(),
                    to: path.with_name(dest).full(),
                },
            ),
        )
    } else {
        ProcStep::Rename { from: path.duplicate(), to: path.with_name(dest) }
    }
}

/// Starts processing one file: derives the new name; a name the transform
/// leaves alone is reported `Unchanged` with no further queries, any other
/// leads to an existence check on the candidate.
pub fn start_file(path: &FilePath, config: &Config) -> (r: ProcStep)
    requires
        config.wf(),
    ensures
        start_post(r, *path, *config),
{
    let new_name = transform(&path.name, &config.mode);
    if new_name == path.name {
        ProcStep::Done(Ok(RenameOutcome::Unchanged { path: path.full() }))
    } else {
        let st = ProcState::Candidate { path: path.duplicate(), candidate: new_name.clone() };
        ProcStep::Query { name: new_name, state: st }
    }
}

/// Starts processing one file for a caller that has not validated the
/// configuration: checks it first, and is `None` exactly when it is not
/// well formed (in which case nothing is decided and nothing is touched).
pub fn process_begin(path: &FilePath, config: &Config) -> (r: Option<ProcStep>)
    ensures
        r is Some <==> config.wf(),
        r matches Some(step) ==> start_post(step, *path, *config),
{
    match crate::config::check_config(config) {
        Ok(()) => Some(start_file(path, config)),
        Err(_) => None,
    }
}

/// Advances a file's processing after learning whether the queried name
/// exists. The transitions, by collision policy:
/// - name free: it is final;
/// - candidate taken but `force`: the candidate stays final (the overwrite
///   happens at apply time);
/// - candidate taken, `auto_number`: the candidates numbered 1, 2, 3, ...
///   are tried in turn, re-checking existence each step;
/// - candidate taken, neither: a collision error naming that destination.
pub fn on_exists(config: &Config, state: ProcState, present: bool) -> (r: ProcStep)
    requires
        !(config.force && config.auto_number),
        state matches ProcState::Numbered { idx, .. } ==> idx < u64::MAX,
    ensures
        config.dry_run ==> !(r is Rename),
        state matches ProcState::Candidate { path, candidate } ==> (if !present || config.force {
            step_finishes(r, path, candidate@, config.dry_run)
        } else if config.auto_number {
            queries_numbered(r, path, stem_of(candidate@), ext_of(candidate@), 1)
        } else {
            r matches ProcStep::Done(res) && res matches Err(e)
                && e matches RenameError::Collision(dest) && dest@ == path.dir@ + candidate@
        }),
        state matches ProcState::Numbered { path, stem, ext, idx } ==> (if present {
            queries_numbered(r, path, stem@, ext@, idx as nat + 1)
        } else {
            step_finishes(r, path, numbered_spec(stem@, idx as nat, ext@), config.dry_run)
        }),
{
    match state {
        ProcState::Candidate { path, candidate } => {
            if !present || config.force {
                finish(&path, candidate, config.dry_run)
            } else if config.auto_number {
                let parts = split_name(&candidate);
                let first = numbered_name(&parts.0, 1, &parts.1);
                let st = ProcState::Numbered {
                    path,
                    stem: parts.0,
                    ext: parts.1,
                    idx: 1,
                };
                ProcStep::Query { name: first, state: st }
            } else {
                ProcStep::Done(
                    Err(RenameError::Collision(path.with_name(candidate).full())),
                )
            }
        },
        ProcState::Numbered { path, stem, ext, idx } => {
            if present {
                let next = numbered_name(&stem, idx + 1, &ext);
                let st = ProcState::Numbered { path, stem, ext, idx: idx + 1 };
                ProcStep::Query { name: next, state: st }
            } else {
                let dest = numbered_name(&stem, idx, &ext);
                finish(&path, dest, config.dry_run)
            }
        },
    }
}

/// Folds the result of the actual rename call into the file's outcome:
/// success reports `Renamed`; failure wraps the rendered cause with the
/// original path and is not retried.
pub fn rename_result(from: &FilePath, to: &FilePath, outcome: Result<(), String>) -> (r: Result<
    RenameOutcome,
    RenameError,
>)
    ensures
        outcome is Ok ==> (r matches Ok(o)
            && o matches RenameOutcome::Renamed { from: f, to: t } && f@ == from.full_spec() && t@
            == to.full_spec()),
        outcome matches Err(m) ==> (r matches Err(e)
            && e matches RenameError::Io { path, message } && path@ == from.full_spec() && message@
            == m@),
{
    match outcome {
        Ok(()) => Ok(RenameOutcome::Renamed { from: from.full(), to: to.full() }),
        Err(m) => Err(RenameError::Io { path: from.full(), message: m }),
    }
}

/// The aggregate result of a whole run over the errors collected per file:
/// success exactly when none was collected, else all of them, in order.
pub fn run_result(errors: Vec<RenameError>) -> (r: Result<(), Vec<RenameError>>)
    ensures
        r is Ok <==> errors@.len() == 0,
        r matches Err(es) ==> es == errors,
{
    if errors.len() == 0 {
        Ok(())
    } else {
        Err(errors)
    }
}

/// Law: a second pass is idle on what the first produced, when that is a
/// fixed point. Once the transform has mapped `name` to a fixed point,
/// processing a file bearing the new name under the same mode reports
/// `Unchanged` and asks for no filesystem action.
pub proof fn lemma_second_pass_unchanged(mode: RenameMode, name: Seq<char>)
    requires
        transform_spec(mode, transform_spec(mode, name)) == transform_spec(mode, name),
    ensures
        is_fixed_point(mode, transform_spec(mode, name)),
{
}

} // verus!
