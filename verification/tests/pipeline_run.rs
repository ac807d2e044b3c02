use move_ast_exporter::pipeline::{
    compiler_options, exit_status, request, step, Action, ErrorKind, Event, ExportError,
    ExportMode, Outcome, Phase, StagingStep, COMPILATION_FAILED, CREATE_TEMP_PACKAGE, MANIFEST_FILE,
    SOURCES_DIR, STAGED_FILE,
};

fn drive(events: &[Event]) -> Vec<Action> {
    let mut phase = Phase::Start;
    let mut actions = vec![request(phase)];
    for event in events {
        let (next, action) = step(phase, *event);
        phase = next;
        actions.push(action);
    }
    actions
}

fn staged_ok() -> Event {
    Event::Staged { ok: true }
}

#[test]
fn a_directory_is_compiled_where_it_lies() {
    let actions = drive(&[
        Event::Launched { has_path: true },
        Event::Probed { is_dir: true },
        Event::Compiled { returned: true, has_errors: false },
        Event::Emitted { encoded: true, written: true },
    ]);
    assert_eq!(
        actions,
        vec![
            Action::ReadArguments,
            Action::Probe,
            Action::Compile,
            Action::Emit,
            Action::Finish { outcome: Outcome::Success, cleanup: false },
        ]
    );
}

#[test]
fn a_lone_file_is_staged_step_by_step() {
    let actions = drive(&[
        Event::Launched { has_path: true },
        Event::Probed { is_dir: false },
        staged_ok(),
        staged_ok(),
        staged_ok(),
        staged_ok(),
        Event::Compiled { returned: true, has_errors: false },
        Event::Emitted { encoded: true, written: true },
    ]);
    assert_eq!(
        actions,
        vec![
            Action::ReadArguments,
            Action::Probe,
            Action::Stage(StagingStep::CreateDir),
            Action::Stage(StagingStep::WriteManifest),
            Action::Stage(StagingStep::CreateSources),
            Action::Stage(StagingStep::CopySource),
            Action::Compile,
            Action::Emit,
            Action::Finish { outcome: Outcome::Success, cleanup: true },
        ]
    );
}

#[test]
fn file_and_directory_runs_ask_for_the_same_output() {
    let as_dir = drive(&[
        Event::Launched { has_path: true },
        Event::Probed { is_dir: true },
        Event::Compiled { returned: true, has_errors: false },
    ]);
    let as_file = drive(&[
        Event::Launched { has_path: true },
        Event::Probed { is_dir: false },
        staged_ok(),
        staged_ok(),
        staged_ok(),
        staged_ok(),
        Event::Compiled { returned: true, has_errors: false },
    ]);
    assert_eq!(as_dir.last(), Some(&Action::Emit));
    assert_eq!(as_file.last(), Some(&Action::Emit));
}

#[test]
fn a_missing_path_is_a_usage_error() {
    let actions = drive(&[Event::Launched { has_path: false }]);
    assert_eq!(
        actions.last(),
        Some(&Action::Finish { outcome: Outcome::Failure(ExportError::Usage), cleanup: false })
    );
}

#[test]
fn compile_errors_end_the_run_without_output() {
    for staged in [false, true] {
        let (phase, action) =
            step(Phase::Compiling { staged }, Event::Compiled { returned: true, has_errors: true });
        let failure = Outcome::Failure(ExportError::CompilationErrors);
        assert_eq!(action, Action::Finish { outcome: failure, cleanup: staged });
        assert_eq!(phase, Phase::Finished { outcome: failure, cleanup: staged });
        assert_ne!(exit_status(failure), 0);
    }
    let actions = drive(&[
        Event::Launched { has_path: true },
        Event::Probed { is_dir: true },
        Event::Compiled { returned: true, has_errors: true },
        Event::Emitted { encoded: true, written: true },
    ]);
    assert!(!actions.contains(&Action::Emit));
}

#[test]
fn a_compiler_that_cannot_run_ends_the_run() {
    let (_, action) =
        step(Phase::Compiling { staged: true }, Event::Compiled { returned: false, has_errors: false });
    assert_eq!(
        action,
        Action::Finish { outcome: Outcome::Failure(ExportError::CompilerFailed), cleanup: true }
    );
}

#[test]
fn each_staging_failure_has_its_error() {
    let cases = [
        (StagingStep::CreateDir, ExportError::CreateDir, false),
        (StagingStep::WriteManifest, ExportError::WriteManifest, true),
        (StagingStep::CreateSources, ExportError::CreateSources, true),
        (StagingStep::CopySource, ExportError::CopySource, true),
    ];
    for (at, error, cleanup) in cases {
        let (_, action) = step(Phase::Staging(at), Event::Staged { ok: false });
        assert_eq!(action, Action::Finish { outcome: Outcome::Failure(error), cleanup });
        assert_eq!(error.kind(), ErrorKind::Io);
    }
}

#[test]
fn output_failures_are_told_apart() {
    let writing = Phase::Writing { staged: false };
    let (_, not_encoded) = step(writing, Event::Emitted { encoded: false, written: false });
    assert_eq!(
        not_encoded,
        Action::Finish { outcome: Outcome::Failure(ExportError::Serialization), cleanup: false }
    );
    let (_, not_written) = step(writing, Event::Emitted { encoded: true, written: false });
    assert_eq!(
        not_written,
        Action::Finish { outcome: Outcome::Failure(ExportError::Output), cleanup: false }
    );
}

#[test]
fn an_event_nobody_asked_for_changes_nothing() {
    let (phase, action) = step(Phase::Probing, Event::Staged { ok: true });
    assert_eq!(phase, Phase::Probing);
    assert_eq!(action, Action::Probe);
    let done = Phase::Finished { outcome: Outcome::Success, cleanup: true };
    let (phase, action) = step(done, Event::Compiled { returned: true, has_errors: false });
    assert_eq!(phase, done);
    assert_eq!(action, Action::Finish { outcome: Outcome::Success, cleanup: true });
}

#[test]
fn error_kinds_and_messages() {
    assert_eq!(ExportError::Usage.kind(), ErrorKind::Usage);
    assert_eq!(ExportError::CompilerFailed.kind(), ErrorKind::Compilation);
    assert_eq!(ExportError::CompilationErrors.kind(), ErrorKind::Compilation);
    assert_eq!(ExportError::Serialization.kind(), ErrorKind::Serialization);
    assert_eq!(ExportError::Output.kind(), ErrorKind::Io);
    assert_eq!(ExportError::Usage.message(ExportMode::Annotated), Some("Usage: <bin> <FILE|DIR>"));
    assert_eq!(ExportError::Usage.message(ExportMode::Summary), Some("Usage: <bin> <FILE|DIR>"));
    assert_eq!(
        ExportError::Usage.message(ExportMode::BasicFull),
        Some("Usage: move_ast_exporter <FILE|DIR>")
    );
    assert_eq!(ExportError::CreateDir.message(ExportMode::Annotated), Some("create temp package"));
    assert_eq!(ExportError::CompilationErrors.message(ExportMode::Summary), Some("Compilation failed"));
    assert_eq!(ExportError::CopySource.message(ExportMode::Annotated), None);
    assert_eq!(ExportError::CompilerFailed.message(ExportMode::Annotated), None);
    assert_eq!(COMPILATION_FAILED, "Compilation failed");
    assert_eq!(CREATE_TEMP_PACKAGE, "create temp package");
}

#[test]
fn exit_status_is_zero_only_after_success() {
    assert_eq!(exit_status(Outcome::Success), 0);
    assert_eq!(exit_status(Outcome::Failure(ExportError::Usage)), 1);
    assert_eq!(exit_status(Outcome::Failure(ExportError::Output)), 1);
}

#[test]
fn scratch_package_layout() {
    assert_eq!(MANIFEST_FILE, "Move.toml");
    assert_eq!(SOURCES_DIR, "sources");
    assert_eq!(STAGED_FILE, "main.move");
    assert_eq!(
        ExportMode::Annotated.manifest(),
        "[package]\nname = \"scratch\"\nversion = \"0.0.0\"\n"
    );
    assert_eq!(ExportMode::BasicFull.manifest(), "[package]\nname=\"scratch\"\nversion=\"0.0.0\"\n");
    assert_eq!(ExportMode::Summary.manifest(), "[package]\nname=\"scratch\"\nversion=\"0.0.0\"\n");
}

#[test]
fn compiler_options_hold_the_fixed_entries() {
    let options = compiler_options("/tmp/pkg/sources".to_string());
    assert_eq!(options.sources, vec!["/tmp/pkg/sources".to_string()]);
    assert_eq!(
        options.named_address_mapping,
        vec!["BasicCoin=0x1".to_string(), "std=0x1".to_string()]
    );
    assert_eq!(
        options.dependencies,
        vec!["../aptos-core/third_party/move/move-stdlib/sources".to_string()]
    );
    let other = compiler_options("pkg/sources".to_string());
    assert_eq!(other.named_address_mapping, options.named_address_mapping);
    assert_eq!(other.dependencies, options.dependencies);
}

#[test]
fn mode_follows_the_program_name() {
    assert_eq!(ExportMode::from_program_name("basic_full"), ExportMode::BasicFull);
    assert_eq!(ExportMode::from_program_name("summary"), ExportMode::Summary);
    assert_eq!(ExportMode::from_program_name("move_ast_exporter"), ExportMode::Annotated);
    assert_eq!(ExportMode::from_program_name(""), ExportMode::Annotated);
}
