use shaderpad::program::{CompileOutcome, ProgramState, Verdict};

fn failed(text: &str) -> CompileOutcome {
    CompileOutcome::Failed(String::from(text))
}

#[test]
fn first_success_installs_program_one() {
    let mut state = ProgramState::new();
    assert_eq!(state, ProgramState::Uninitialized);
    assert_eq!(state.active(), None);
    let verdict = state.apply(&CompileOutcome::Linked);
    assert_eq!(verdict, Verdict::Installed { program: 1, superseded: None });
    assert_eq!(state, ProgramState::Valid(1));
    assert_eq!(state.active(), Some(1));
}

#[test]
fn later_success_replaces_and_releases_the_old_program() {
    let mut state = ProgramState::new();
    state.apply(&CompileOutcome::Linked);
    let verdict = state.apply(&CompileOutcome::Linked);
    assert_eq!(verdict, Verdict::Installed { program: 2, superseded: Some(1) });
    assert_eq!(state, ProgramState::Valid(2));
    let verdict = state.apply(&CompileOutcome::Linked);
    assert_eq!(verdict, Verdict::Installed { program: 3, superseded: Some(2) });
}

#[test]
fn failure_keeps_the_active_program() {
    let mut state = ProgramState::new();
    state.apply(&CompileOutcome::Linked);
    let verdict = state.apply(&failed("0:1: syntax error"));
    assert_eq!(verdict, Verdict::Retained { program: 1 });
    assert_eq!(state, ProgramState::Valid(1));
    let verdict = state.apply(&failed("again"));
    assert_eq!(verdict, Verdict::Retained { program: 1 });
    assert_eq!(state.active(), Some(1));
}

#[test]
fn failure_of_the_first_compile_is_fatal() {
    let mut state = ProgramState::new();
    let verdict = state.apply(&failed("no main"));
    assert_eq!(verdict, Verdict::Fatal);
    assert_eq!(state, ProgramState::Uninitialized);
    let verdict = state.apply(&CompileOutcome::Linked);
    assert_eq!(verdict, Verdict::Installed { program: 1, superseded: None });
}

#[test]
fn program_numbers_start_over_after_the_largest() {
    let mut state = ProgramState::Valid(u64::MAX);
    let verdict = state.apply(&CompileOutcome::Linked);
    assert_eq!(verdict, Verdict::Installed { program: 1, superseded: Some(u64::MAX) });
    assert_eq!(state, ProgramState::Valid(1));
    let mut state = ProgramState::Valid(u64::MAX - 1);
    state.apply(&CompileOutcome::Linked);
    assert_eq!(state, ProgramState::Valid(u64::MAX));
}

#[test]
fn diagnostic_of_an_outcome() {
    assert_eq!(failed("bad token").into_diagnostic(), "bad token");
    assert_eq!(CompileOutcome::Linked.into_diagnostic(), "");
}
