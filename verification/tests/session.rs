use shaderpad::program::{CompileOutcome, Verdict};
use shaderpad::events::{InputAction, InputEvent};
use shaderpad::frame::{background_color, FrameCommand, FrameEvent, FrameStage, Rgba};
use shaderpad::session::Session;
use shaderpad::source::ShaderSourceSet;
use shaderpad::startup::StartupError;
use shaderpad::uniforms::UniformSnapshot;

const RED_BODY: &str = "void main(){ outColor = vec4(1,0,0,1); }";

fn framed(body: &str) -> ShaderSourceSet {
    ShaderSourceSet::framed(
        Some(String::from("in vec2 pos; void main(){ gl_Position = vec4(pos, 0, 1); }")),
        Some(String::new()),
        Some(String::from(body)),
        Some(String::new()),
    )
}

fn begun(body: &str) -> Session {
    Session::start(framed(body), CompileOutcome::Linked).unwrap()
}

fn failed(text: &str) -> FrameEvent {
    FrameEvent::Compiled(CompileOutcome::Failed(String::from(text)))
}

fn linked() -> FrameEvent {
    FrameEvent::Compiled(CompileOutcome::Linked)
}

fn installed(program: u64) -> FrameCommand {
    FrameCommand::Clear {
        color: background_color(),
        verdict: Verdict::Installed { program, superseded: Some(program - 1) },
        report: None,
    }
}

fn retained(program: u64, report: &str) -> FrameCommand {
    FrameCommand::Clear {
        color: background_color(),
        verdict: Verdict::Retained { program },
        report: Some(String::from(report)),
    }
}

#[test]
fn background_is_opaque_black() {
    assert_eq!(background_color(), Rgba { red: 0, green: 0, blue: 0, alpha: 255 });
}

#[test]
fn session_starts_idle_with_program_one() {
    let session = begun(RED_BODY);
    assert_eq!(session.stage(), FrameStage::Idle);
    assert_eq!(session.active_program(), 1);
    assert!(!session.is_closing());
    assert!(!session.is_stopped());
    assert!(session.takes_pointer());
    assert_eq!(session.body(), RED_BODY);
    assert_eq!(
        session.uniforms(),
        UniformSnapshot { elapsed_nanos: 0, resolution: (1920, 1080, 1), pointer: (0, 0, 0, 0) }
    );
}

#[test]
fn failed_first_compile_gives_no_session() {
    let outcome = CompileOutcome::Failed(String::from("0:1: error"));
    let result = Session::start(framed("void main(("), outcome);
    assert_eq!(result.unwrap_err(), StartupError::InitialCompile(String::from("0:1: error")));
}

#[test]
fn valid_body_compiles_and_is_drawn() {
    let mut session = begun("");
    session.edit_body(String::from(RED_BODY));
    let command = session.step(FrameEvent::Redraw { now: 1_000 });
    assert_eq!(
        command,
        FrameCommand::Compile {
            vertex: String::from("in vec2 pos; void main(){ gl_Position = vec4(pos, 0, 1); }"),
            fragment: String::from(RED_BODY),
        }
    );
    assert_eq!(session.stage(), FrameStage::Compiling);
    assert_eq!(session.step(linked()), installed(2));
    assert_eq!(session.active_program(), 2);
    let command = session.step(FrameEvent::Done);
    assert_eq!(
        command,
        FrameCommand::Draw {
            program: 2,
            uniforms: UniformSnapshot {
                elapsed_nanos: 0,
                resolution: (1920, 1080, 1),
                pointer: (0, 0, 0, 0),
            },
        }
    );
    assert_eq!(session.step(FrameEvent::Done), FrameCommand::Composite);
    assert_eq!(session.step(FrameEvent::Done), FrameCommand::Present);
    assert_eq!(session.step(FrameEvent::Done), FrameCommand::Wait);
    assert_eq!(session.stage(), FrameStage::Idle);
}

#[test]
fn malformed_body_keeps_the_active_program_and_the_session_goes_on() {
    let mut session = begun(RED_BODY);
    session.edit_body(String::from("void main(("));
    let command = session.step(FrameEvent::Redraw { now: 0 });
    match command {
        FrameCommand::Compile { fragment, .. } => assert_eq!(fragment, "void main(("),
        other => panic!("{:?}", other),
    }
    assert_eq!(session.step(failed("0:2: syntax error")), retained(1, "0:2: syntax error"));
    assert_eq!(session.active_program(), 1);
    assert!(!session.is_stopped());
    match session.step(FrameEvent::Done) {
        FrameCommand::Draw { program, .. } => assert_eq!(program, 1),
        other => panic!("{:?}", other),
    }
    assert_eq!(session.step(FrameEvent::Done), FrameCommand::Composite);
    assert_eq!(session.step(FrameEvent::Done), FrameCommand::Present);
    assert_eq!(session.step(FrameEvent::Done), FrameCommand::Wait);
    assert_eq!(session.step(FrameEvent::Redraw { now: 5 }), FrameCommand::Compile {
        vertex: session_vertex(),
        fragment: String::from("void main(("),
    });
    assert_eq!(session.step(failed("0:2: syntax error")), retained(1, "0:2: syntax error"));
    assert_eq!(session.active_program(), 1);
}

fn session_vertex() -> String {
    String::from("in vec2 pos; void main(){ gl_Position = vec4(pos, 0, 1); }")
}

#[test]
fn every_success_installs_a_new_program() {
    let mut session = begun(RED_BODY);
    for frame in 0..5u64 {
        session.step(FrameEvent::Redraw { now: frame * 16 });
        assert_eq!(session.step(linked()), installed(frame + 2));
        assert_eq!(session.active_program(), frame + 2);
        match session.step(FrameEvent::Done) {
            FrameCommand::Draw { program, uniforms } => {
                assert_eq!(program, frame + 2);
                assert_eq!(uniforms.elapsed_nanos, frame * 16);
            }
            other => panic!("{:?}", other),
        }
        session.step(FrameEvent::Done);
        session.step(FrameEvent::Done);
        assert_eq!(session.step(FrameEvent::Done), FrameCommand::Wait);
    }
}

#[test]
fn elapsed_time_over_frames_does_not_decrease() {
    let mut session = begun(RED_BODY);
    let mut seen = Vec::new();
    for now in [40u64, 90, 70, 200] {
        session.step(FrameEvent::Redraw { now });
        session.step(linked());
        match session.step(FrameEvent::Done) {
            FrameCommand::Draw { uniforms, .. } => seen.push(uniforms.elapsed_nanos),
            other => panic!("{:?}", other),
        }
        session.step(FrameEvent::Done);
        session.step(FrameEvent::Done);
        session.step(FrameEvent::Done);
    }
    assert_eq!(seen, vec![0, 50, 50, 160]);
}

#[test]
fn frame_is_drawn_with_events_that_came_before_it() {
    let mut session = begun(RED_BODY);
    assert_eq!(
        session.handle_input(InputEvent::Resized { width: 800, height: 600 }),
        InputAction::ResizeSurface { width: 800, height: 600 }
    );
    assert_eq!(session.handle_input(InputEvent::PointerDown { x: 10, y: 20 }), InputAction::Forward);
    assert_eq!(session.handle_input(InputEvent::PointerDrag { x: 30, y: 40 }), InputAction::Forward);
    session.step(FrameEvent::Redraw { now: 0 });
    session.step(linked());
    assert_eq!(session.handle_input(InputEvent::PointerUp), InputAction::Forward);
    match session.step(FrameEvent::Done) {
        FrameCommand::Draw { uniforms, .. } => {
            assert_eq!(uniforms.resolution, (800, 600, 1));
            assert_eq!(uniforms.pointer, (10, 580, 30, 560));
        }
        other => panic!("{:?}", other),
    }
    assert_eq!(session.uniforms().pointer, (10, 580, -30, -560));
}

#[test]
fn resize_with_a_zero_dimension_is_ignored() {
    let mut session = begun(RED_BODY);
    session.handle_input(InputEvent::Resized { width: 800, height: 600 });
    let before = session.uniforms();
    assert_eq!(
        session.handle_input(InputEvent::Resized { width: 0, height: 600 }),
        InputAction::Ignore
    );
    assert_eq!(
        session.handle_input(InputEvent::Resized { width: 800, height: 0 }),
        InputAction::Ignore
    );
    assert_eq!(session.uniforms(), before);
    assert_eq!(session.uniforms().resolution, (800, 600, 1));
}

#[test]
fn resize_sequence_through_the_session() {
    let mut session = begun(RED_BODY);
    session.handle_input(InputEvent::Resized { width: 800, height: 600 });
    assert_eq!(
        session.handle_input(InputEvent::Resized { width: 1024, height: 768 }),
        InputAction::ResizeSurface { width: 1024, height: 768 }
    );
    assert_eq!(session.uniforms().resolution, (1024, 768, 1));
}

#[test]
fn pointer_press_through_the_session() {
    let mut session = begun(RED_BODY);
    session.handle_input(InputEvent::PointerDown { x: 100, y: 100 });
    assert_eq!(session.uniforms().pointer, (100, 980, 100, 980));
    session.handle_input(InputEvent::PointerDrag { x: 400, y: 300 });
    session.handle_input(InputEvent::PointerUp);
    assert_eq!(session.uniforms().pointer, (100, 980, -400, -780));
}

#[test]
fn pointer_samples_through_the_session() {
    let mut session = begun(RED_BODY);
    let sample = |down, x, y| InputEvent::PointerSample { down, x, y };
    assert_eq!(session.handle_input(sample(false, 5, 5)), InputAction::Forward);
    assert_eq!(session.uniforms().pointer, (0, 0, 0, 0));
    session.handle_input(sample(true, 5, 5));
    session.handle_input(sample(true, 6, 7));
    assert_eq!(session.uniforms().pointer, (5, 1075, 6, 1073));
    session.handle_input(sample(false, 6, 7));
    assert_eq!(session.uniforms().pointer, (5, 1075, -6, -1073));
}

#[test]
fn other_events_are_passed_on_and_change_nothing() {
    let mut session = begun(RED_BODY);
    let before = session.uniforms();
    assert_eq!(session.handle_input(InputEvent::Other), InputAction::Forward);
    assert_eq!(session.uniforms(), before);
    assert_eq!(session.stage(), FrameStage::Idle);
}

#[test]
fn close_between_frames_ends_the_session_at_once() {
    let mut session = begun(RED_BODY);
    assert_eq!(session.handle_input(InputEvent::CloseRequested), InputAction::Exit);
    assert!(session.is_stopped());
    assert!(session.is_closing());
    assert_eq!(session.step(FrameEvent::Redraw { now: 1 }), FrameCommand::Ignore);
    assert_eq!(session.handle_input(InputEvent::Other), InputAction::Ignore);
}

#[test]
fn close_during_a_frame_waits_until_it_is_presented() {
    let mut session = begun(RED_BODY);
    session.step(FrameEvent::Redraw { now: 1 });
    assert_eq!(session.handle_input(InputEvent::CloseRequested), InputAction::Ignore);
    assert!(session.is_closing());
    assert_eq!(session.stage(), FrameStage::Compiling);
    assert_eq!(session.step(linked()), installed(2));
    assert!(matches!(session.step(FrameEvent::Done), FrameCommand::Draw { .. }));
    assert_eq!(session.step(FrameEvent::Done), FrameCommand::Composite);
    assert_eq!(session.step(FrameEvent::Done), FrameCommand::Present);
    assert_eq!(session.step(FrameEvent::Done), FrameCommand::Exit);
    assert!(session.is_stopped());
}

#[test]
fn failure_on_the_surface_is_fatal_at_every_stage() {
    for done_before in 0..4 {
        let mut session = begun(RED_BODY);
        session.step(FrameEvent::Redraw { now: 1 });
        session.step(linked());
        for _ in 0..done_before {
            session.step(FrameEvent::Done);
        }
        let command = session.step(FrameEvent::Failed(String::from("context lost")));
        assert_eq!(command, FrameCommand::Abort { diagnostic: String::from("context lost") });
        assert!(session.is_stopped());
        assert_eq!(session.step(FrameEvent::Done), FrameCommand::Ignore);
    }
}

#[test]
fn reports_out_of_turn_are_ignored() {
    let mut session = begun(RED_BODY);
    assert_eq!(session.step(FrameEvent::Done), FrameCommand::Ignore);
    assert_eq!(session.step(linked()), FrameCommand::Ignore);
    assert_eq!(session.step(FrameEvent::Failed(String::from("x"))), FrameCommand::Ignore);
    assert_eq!(session.stage(), FrameStage::Idle);
    assert_eq!(session.active_program(), 1);
    session.step(FrameEvent::Redraw { now: 3 });
    assert_eq!(session.step(FrameEvent::Redraw { now: 4 }), FrameCommand::Ignore);
    assert_eq!(session.step(FrameEvent::Done), FrameCommand::Ignore);
    assert_eq!(session.step(FrameEvent::Failed(String::from("x"))), FrameCommand::Ignore);
    assert_eq!(session.stage(), FrameStage::Compiling);
    session.step(linked());
    assert_eq!(session.step(linked()), FrameCommand::Ignore);
    assert_eq!(session.step(FrameEvent::Redraw { now: 9 }), FrameCommand::Ignore);
    assert_eq!(session.stage(), FrameStage::Clearing);
    assert_eq!(session.active_program(), 2);
}

#[test]
fn edit_is_taken_up_by_the_next_compile() {
    let mut session = Session::start(
        ShaderSourceSet::single(Some(String::from("v")), Some(String::from("a"))),
        CompileOutcome::Linked,
    )
    .unwrap();
    assert!(!session.takes_pointer());
    session.edit_body(String::from("b"));
    assert_eq!(session.body(), "b");
    assert_eq!(
        session.step(FrameEvent::Redraw { now: 0 }),
        FrameCommand::Compile { vertex: String::from("v"), fragment: String::from("b") }
    );
}
