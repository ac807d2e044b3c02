//! The course of one run, as a state machine.
//!
//! The caller does what the machine asks for (reads the argument, looks at
//! the path, stages a lone file as a package, compiles, prints) and reports
//! how it went; the machine says what comes next. It asks for output only
//! after a compilation that reported no error, and it ends every run with
//! the order to remove the scratch package if one was made.

use crate::views::each_view;
use vstd::prelude::*;

verus! {

/// The name of the manifest of a package.
pub const MANIFEST_FILE: &'static str = "Move.toml";

/// The directory of a package that holds its sources.
pub const SOURCES_DIR: &'static str = "sources";

/// The name a lone source file gets inside the scratch package.
pub const STAGED_FILE: &'static str = "main.move";

/// The message of a run whose compilation reported errors.
pub const COMPILATION_FAILED: &'static str = "Compilation failed";

/// The message of a run that could not make its scratch directory.
pub const CREATE_TEMP_PACKAGE: &'static str = "create temp package";

/// Which listing a run prints.
#[derive(Clone, Copy, Debug, PartialEq, Eq, Structural)]
pub enum ExportMode {
    /// Declarations with attributes and function bodies.
    Annotated,
    /// Declarations with fields, abilities and signatures.
    BasicFull,
    /// Module names and totals.
    Summary,
}

impl ExportMode {
    /// The listing a program of this name prints: `basic_full` and
    /// `summary` print theirs, every other name the annotated one.
    pub open spec fn of_program(name: Seq<char>) -> ExportMode {
        if name == "basic_full"@ {
            ExportMode::BasicFull
        } else if name == "summary"@ {
            ExportMode::Summary
        } else {
            ExportMode::Annotated
        }
    }

    /// The listing a program of this name prints.
    pub fn from_program_name(name: &str) -> (mode: ExportMode)
        ensures
            mode == Self::of_program(name@),
    {
        let given = name.to_string();
        if given == "basic_full".to_string() {
            ExportMode::BasicFull
        } else if given == "summary".to_string() {
            ExportMode::Summary
        } else {
            ExportMode::Annotated
        }
    }

    pub open spec fn usage_text(self) -> Seq<char> {
        match self {
            ExportMode::BasicFull => "Usage: move_ast_exporter <FILE|DIR>"@,
            _ => "Usage: <bin> <FILE|DIR>"@,
        }
    }

    /// The message of a run that was given no path.
    pub fn usage(self) -> (text: &'static str)
        ensures
            text@ == self.usage_text(),
    {
        match self {
            ExportMode::BasicFull => "Usage: move_ast_exporter <FILE|DIR>",
            _ => "Usage: <bin> <FILE|DIR>",
        }
    }

    pub open spec fn manifest_text(self) -> Seq<char> {
        match self {
            ExportMode::Annotated => "[package]\nname = \"scratch\"\nversion = \"0.0.0\"\n"@,
            _ => "[package]\nname=\"scratch\"\nversion=\"0.0.0\"\n"@,
        }
    }

    /// The manifest of the scratch package.
    pub fn manifest(self) -> (text: &'static str)
        ensures
            text@ == self.manifest_text(),
    {
        match self {
            ExportMode::Annotated => "[package]\nname = \"scratch\"\nversion = \"0.0.0\"\n",
            _ => "[package]\nname=\"scratch\"\nversion=\"0.0.0\"\n",
        }
    }
}

/// What the compiler is called with.
#[derive(Debug, PartialEq, Eq)]
pub struct CompilerOptions {
    pub sources: Vec<String>,
    pub named_address_mapping: Vec<String>,
    pub dependencies: Vec<String>,
}

/// The options for a package whose sources lie in `sources`: that one
/// source root, the two named addresses, and the standard library as the
/// one dependency.
pub fn compiler_options(sources: String) -> (options: CompilerOptions)
    ensures
        each_view(options.sources@) == seq![sources@],
        each_view(options.named_address_mapping@) == seq!["BasicCoin=0x1"@, "std=0x1"@],
        each_view(options.dependencies@) == seq![
            "../aptos-core/third_party/move/move-stdlib/sources"@,
        ],
{
    let ghost root = sources@;
    let mut roots: Vec<String> = Vec::new();
    roots.push(sources);
    let mut named_address_mapping: Vec<String> = Vec::new();
    named_address_mapping.push("BasicCoin=0x1".to_string());
    named_address_mapping.push("std=0x1".to_string());
    let mut dependencies: Vec<String> = Vec::new();
    dependencies.push("../aptos-core/third_party/move/move-stdlib/sources".to_string());
    let options = CompilerOptions { sources: roots, named_address_mapping, dependencies };
    assert(each_view(options.sources@) =~= seq![root]);
    assert(each_view(options.named_address_mapping@) =~= seq!["BasicCoin=0x1"@, "std=0x1"@]);
    assert(each_view(options.dependencies@) =~= seq![
        "../aptos-core/third_party/move/move-stdlib/sources"@,
    ]);
    options
}

/// Why a run failed.
#[derive(Clone, Copy, Debug, PartialEq, Eq, Structural)]
pub enum ExportError {
    /// No path was given.
    Usage,
    /// The scratch directory could not be made.
    CreateDir,
    /// The manifest could not be written.
    WriteManifest,
    /// The sources directory could not be made.
    CreateSources,
    /// The source file could not be copied.
    CopySource,
    /// The compiler could not be run.
    CompilerFailed,
    /// The compiler reported errors.
    CompilationErrors,
    /// The listing could not be encoded.
    Serialization,
    /// The listing could not be written.
    Output,
}

/// The four classes of failure.
#[derive(Clone, Copy, Debug, PartialEq, Eq, Structural)]
pub enum ErrorKind {
    Usage,
    Io,
    Compilation,
    Serialization,
}

impl ExportError {
    pub open spec fn kind_of(self) -> ErrorKind {
        match self {
            ExportError::Usage => ErrorKind::Usage,
            ExportError::CompilerFailed | ExportError::CompilationErrors => ErrorKind::Compilation,
            ExportError::Serialization => ErrorKind::Serialization,
            _ => ErrorKind::Io,
        }
    }

    /// The class of the failure.
    pub fn kind(self) -> (k: ErrorKind)
        ensures
            k == self.kind_of(),
    {
        match self {
            ExportError::Usage => ErrorKind::Usage,
            ExportError::CompilerFailed | ExportError::CompilationErrors => ErrorKind::Compilation,
            ExportError::Serialization => ErrorKind::Serialization,
            _ => ErrorKind::Io,
        }
    }

    pub open spec fn message_text(self, mode: ExportMode) -> Option<Seq<char>> {
        match self {
            ExportError::Usage => Some(mode.usage_text()),
            ExportError::CreateDir => Some(CREATE_TEMP_PACKAGE@),
            ExportError::CompilationErrors => Some(COMPILATION_FAILED@),
            _ => None,
        }
    }

    /// The message this library has for the failure; `None` where the
    /// failed operation's own error is the message.
    pub fn message(self, mode: ExportMode) -> (text: Option<&'static str>)
        ensures
            match text {
                Some(t) => self.message_text(mode) == Some(t@),
                None => self.message_text(mode) is None,
            },
    {
        match self {
            ExportError::Usage => Some(mode.usage()),
            ExportError::CreateDir => Some(CREATE_TEMP_PACKAGE),
            ExportError::CompilationErrors => Some(COMPILATION_FAILED),
            _ => None,
        }
    }
}

/// One step of making the scratch package around a lone source file.
#[derive(Clone, Copy, Debug, PartialEq, Eq, Structural)]
pub enum StagingStep {
    /// Make the scratch directory.
    CreateDir,
    /// Write [`MANIFEST_FILE`] into it.
    WriteManifest,
    /// Make [`SOURCES_DIR`] in it.
    CreateSources,
    /// Copy the source file there as [`STAGED_FILE`].
    CopySource,
}

/// How a run ended.
#[derive(Clone, Copy, Debug, PartialEq, Eq, Structural)]
pub enum Outcome {
    Success,
    Failure(ExportError),
}

/// Where a run stands.
#[derive(Clone, Copy, Debug, PartialEq, Eq, Structural)]
pub enum Phase {
    /// Nothing has happened yet.
    Start,
    /// The path is known; whether it is a directory is not.
    Probing,
    /// The scratch package is being made; this step is next.
    Staging(StagingStep),
    /// The package root is ready. `staged` says whether it is a scratch package.
    Compiling { staged: bool },
    /// The compilation reported no error.
    Writing { staged: bool },
    /// The run is over. `cleanup` says whether a scratch package is to be removed.
    Finished { outcome: Outcome, cleanup: bool },
}

/// What the caller reports.
#[derive(Clone, Copy, Debug, PartialEq, Eq, Structural)]
pub enum Event {
    /// The arguments were read.
    Launched { has_path: bool },
    /// The path was looked at.
    Probed { is_dir: bool },
    /// The staging step that was asked for ended.
    Staged { ok: bool },
    /// The compiler was called. `returned` says whether it handed back a
    /// model, `has_errors` whether that model holds errors.
    Compiled { returned: bool, has_errors: bool },
    /// The listing was encoded and printed, or one of the two failed.
    Emitted { encoded: bool, written: bool },
}

/// What the caller is asked to do.
#[derive(Clone, Copy, Debug, PartialEq, Eq, Structural)]
pub enum Action {
    ReadArguments,
    Probe,
    Stage(StagingStep),
    Compile,
    Emit,
    Finish { outcome: Outcome, cleanup: bool },
}

/// A failed end; `cleanup` says whether a scratch package exists.
pub open spec fn failed(error: ExportError, cleanup: bool) -> Phase {
    Phase::Finished { outcome: Outcome::Failure(error), cleanup }
}

/// The phase after `event`. An event that does not answer what the phase
/// asked for changes nothing.
pub open spec fn next_phase(phase: Phase, event: Event) -> Phase {
    match (phase, event) {
        (Phase::Start, Event::Launched { has_path }) => if has_path {
            Phase::Probing
        } else {
            failed(ExportError::Usage, false)
        },
        (Phase::Probing, Event::Probed { is_dir }) => if is_dir {
            Phase::Compiling { staged: false }
        } else {
            Phase::Staging(StagingStep::CreateDir)
        },
        (Phase::Staging(step), Event::Staged { ok }) => match step {
            StagingStep::CreateDir => if ok {
                Phase::Staging(StagingStep::WriteManifest)
            } else {
                failed(ExportError::CreateDir, false)
            },
            StagingStep::WriteManifest => if ok {
                Phase::Staging(StagingStep::CreateSources)
            } else {
                failed(ExportError::WriteManifest, true)
            },
            StagingStep::CreateSources => if ok {
                Phase::Staging(StagingStep::CopySource)
            } else {
                failed(ExportError::CreateSources, true)
            },
            StagingStep::CopySource => if ok {
                Phase::Compiling { staged: true }
            } else {
                failed(ExportError::CopySource, true)
            },
        },
        (Phase::Compiling { staged }, Event::Compiled { returned, has_errors }) => if !returned {
            failed(ExportError::CompilerFailed, staged)
        } else if has_errors {
            failed(ExportError::CompilationErrors, staged)
        } else {
            Phase::Writing { staged }
        },
        (Phase::Writing { staged }, Event::Emitted { encoded, written }) => if !encoded {
            failed(ExportError::Serialization, staged)
        } else if !written {
            failed(ExportError::Output, staged)
        } else {
            Phase::Finished { outcome: Outcome::Success, cleanup: staged }
        },
        _ => phase,
    }
}

/// What a phase asks the caller to do.
pub open spec fn request_of(phase: Phase) -> Action {
    match phase {
        Phase::Start => Action::ReadArguments,
        Phase::Probing => Action::Probe,
        Phase::Staging(step) => Action::Stage(step),
        Phase::Compiling { .. } => Action::Compile,
        Phase::Writing { .. } => Action::Emit,
        Phase::Finished { outcome, cleanup } => Action::Finish { outcome, cleanup },
    }
}

/// What `phase` asks the caller to do.
pub fn request(phase: Phase) -> (action: Action)
    ensures
        action == request_of(phase),
{
    match phase {
        Phase::Start => Action::ReadArguments,
        Phase::Probing => Action::Probe,
        Phase::Staging(step) => Action::Stage(step),
        Phase::Compiling { .. } => Action::Compile,
        Phase::Writing { .. } => Action::Emit,
        Phase::Finished { outcome, cleanup } => Action::Finish { outcome, cleanup },
    }
}

fn fail(error: ExportError, cleanup: bool) -> (phase: Phase)
    ensures
        phase == failed(error, cleanup),
{
    Phase::Finished { outcome: Outcome::Failure(error), cleanup }
}

/// Takes the report of what was last asked for and says what comes next:
/// the new phase and what it asks for.
pub fn step(phase: Phase, event: Event) -> (next: (Phase, Action))
    ensures
        next.0 == next_phase(phase, event),
        next.1 == request_of(next.0),
{
    let next = match (phase, event) {
        (Phase::Start, Event::Launched { has_path }) => if has_path {
            Phase::Probing
        } else {
            fail(ExportError::Usage, false)
        },
        (Phase::Probing, Event::Probed { is_dir }) => if is_dir {
            Phase::Compiling { staged: false }
        } else {
            Phase::Staging(StagingStep::CreateDir)
        },
        (Phase::Staging(step), Event::Staged { ok }) => match step {
            StagingStep::CreateDir => if ok {
                Phase::Staging(StagingStep::WriteManifest)
            } else {
                fail(ExportError::CreateDir, false)
            },
            StagingStep::WriteManifest => if ok {
                Phase::Staging(StagingStep::CreateSources)
            } else {
                fail(ExportError::WriteManifest, true)
            },
            StagingStep::CreateSources => if ok {
                Phase::Staging(StagingStep::CopySource)
            } else {
                fail(ExportError::CreateSources, true)
            },
            StagingStep::CopySource => if ok {
                Phase::Compiling { staged: true }
            } else {
                fail(ExportError::CopySource, true)
            },
        },
        (Phase::Compiling { staged }, Event::Compiled { returned, has_errors }) => if !returned {
            fail(ExportError::CompilerFailed, staged)
        } else if has_errors {
            fail(ExportError::CompilationErrors, staged)
        } else {
            Phase::Writing { staged }
        },
        (Phase::Writing { staged }, Event::Emitted { encoded, written }) => if !encoded {
            fail(ExportError::Serialization, staged)
        } else if !written {
            fail(ExportError::Output, staged)
        } else {
            Phase::Finished { outcome: Outcome::Success, cleanup: staged }
        },
        _ => phase,
    };
    (next, request(next))
}

/// The status the process exits with: zero after a success, one after a failure.
pub fn exit_status(outcome: Outcome) -> (status: i32)
    ensures
        status == 0 <==> outcome is Success,
        outcome is Failure ==> status == 1,
{
    match outcome {
        Outcome::Success => 0,
        Outcome::Failure(_) => 1,
    }
}

/// The phase a run is in after `events`, starting from `phase`.
pub open spec fn run(phase: Phase, events: Seq<Event>) -> Phase
    decreases events.len(),
{
    if events.len() == 0 {
        phase
    } else {
        next_phase(run(phase, events.drop_last()), events.last())
    }
}

/// A compilation that handed back a model without errors.
pub open spec fn is_clean_compile(event: Event) -> bool {
    event matches Event::Compiled { returned, has_errors } && returned && !has_errors
}

/// Whether a run in this phase has a scratch package to remove.
pub open spec fn holds_scratch(phase: Phase) -> bool {
    match phase {
        Phase::Start | Phase::Probing | Phase::Staging(StagingStep::CreateDir) => false,
        Phase::Staging(_) => true,
        Phase::Compiling { staged } => staged,
        Phase::Writing { staged } => staged,
        Phase::Finished { cleanup, .. } => cleanup,
    }
}

/// Whether, in the course of `events`, the request to make the scratch
/// directory was answered with success.
pub open spec fn scratch_made(events: Seq<Event>) -> bool
    decreases events.len(),
{
    if events.len() == 0 {
        false
    } else {
        scratch_made(events.drop_last()) || (run(Phase::Start, events.drop_last())
            == Phase::Staging(StagingStep::CreateDir) && events.last() == Event::Staged {
            ok: true,
        })
    }
}

/// Output needs a clean compilation: a run in which no compilation handed
/// back a model without errors never asks for output and never ends in
/// success.
pub proof fn lemma_no_output_without_clean_compile(events: Seq<Event>)
    requires
        forall|i: int| 0 <= i < events.len() ==> !is_clean_compile(#[trigger] events[i]),
    ensures
        request_of(run(Phase::Start, events)) != Action::Emit,
        !(run(Phase::Start, events) matches Phase::Finished { outcome: Outcome::Success, .. }),
    decreases events.len(),
{
    if events.len() > 0 {
        let earlier = events.drop_last();
        assert forall|i: int| 0 <= i < earlier.len() implies !is_clean_compile(
            #[trigger] earlier[i],
        ) by {
            assert(earlier[i] == events[i]);
        }
        lemma_no_output_without_clean_compile(earlier);
        assert(!is_clean_compile(events[events.len() - 1]));
    }
}

/// A compilation that reports errors ends the run at once, with a failure
/// of the compilation class and without a request for output.
pub proof fn lemma_compile_errors_end_the_run(staged: bool, returned: bool)
    ensures
        next_phase(Phase::Compiling { staged }, Event::Compiled { returned, has_errors: true })
            matches Phase::Finished { outcome: Outcome::Failure(error), cleanup }
            && error.kind_of() == ErrorKind::Compilation && cleanup == staged,
{
}

/// A finished run stays finished, whatever is reported afterwards.
pub proof fn lemma_finished_is_final(phase: Phase, events: Seq<Event>)
    requires
        phase is Finished,
    ensures
        run(phase, events) == phase,
    decreases events.len(),
{
    if events.len() > 0 {
        lemma_finished_is_final(phase, events.drop_last());
    }
}

/// A run that ends is told to remove the scratch package exactly when it
/// made one, whether it ends in success or in any failure.
pub proof fn lemma_scratch_is_removed(events: Seq<Event>)
    ensures
        holds_scratch(run(Phase::Start, events)) == scratch_made(events),
        run(Phase::Start, events) matches Phase::Finished { cleanup, .. } ==> cleanup
            == scratch_made(events),
    decreases events.len(),
{
    if events.len() > 0 {
        lemma_scratch_is_removed(events.drop_last());
    }
}

} // verus!
