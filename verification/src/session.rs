//! One editing session: the state that the render loop keeps, what an event
//! of the window does to it, and how a frame moves through its steps.
//!
//! The loop itself runs outside: it owns the window, the compiler and the
//! surface. For every event of the window it asks [`Session::handle_input`]
//! what to do. For a frame it hands [`Session::step`] one [`FrameEvent`]
//! after the other, and carries out the [`FrameCommand`] that comes back:
//! compile, clear, draw, composite the editor, present.

use vstd::prelude::*;
use crate::events::{InputAction, InputEvent};
use crate::frame::{
    background, background_color, CommandModel, EventModel, FrameCommand, FrameEvent, FrameStage,
};
use crate::program::{CompileOutcome, OutcomeModel, ProgramState, Verdict};
use crate::source::{lemma_empty_frame, text_or_empty, ShaderSourceSet, SourceModel};
use crate::startup::StartupError;
use crate::uniforms::{SnapshotModel, TrackerModel, UniformSnapshot, UniformTracker};

verus! {

/// What a [`Session`] stands for.
pub struct SessionModel {
    /// The shader text.
    pub sources: SourceModel,
    /// The uniform values, as the events of the window have left them.
    pub tracker: TrackerModel,
    /// The active program.
    pub program: ProgramState,
    /// How far the frame in hand has come.
    pub stage: FrameStage,
    /// Whether the window is to close once the frame in hand is presented.
    pub closing: bool,
    /// The uniform values that the frame in hand is drawn with.
    pub frame_uniforms: SnapshotModel,
}

impl SessionModel {
    /// The session after a first compile that succeeded.
    pub open spec fn started(sources: SourceModel) -> SessionModel {
        SessionModel {
            sources,
            tracker: TrackerModel::initial(),
            program: ProgramState::Uninitialized.after(OutcomeModel::Linked),
            stage: FrameStage::Idle,
            closing: false,
            frame_uniforms: TrackerModel::initial().snapshot(),
        }
    }

    /// A session always has a program to draw with, and its tracker is
    /// valid.
    pub open spec fn valid(self) -> bool {
        self.program.is_valid() && self.tracker.valid()
    }

    /// The session after the editor has replaced the body.
    pub open spec fn edited(self, body: Seq<char>) -> SessionModel {
        SessionModel { sources: self.sources.with_body(body), ..self }
    }

    /// The session after an event of the window. Pointer and size go to the
    /// tracker. A request to close ends the session at once if no frame is
    /// in hand, and else when the frame is presented. A session that has
    /// ended takes no more events.
    pub open spec fn after_input(self, event: InputEvent) -> SessionModel {
        if self.stage is Stopped {
            self
        } else {
            match event {
                InputEvent::PointerDown { x, y } => SessionModel {
                    tracker: self.tracker.pressed(x, y),
                    ..self
                },
                InputEvent::PointerDrag { x, y } => SessionModel {
                    tracker: self.tracker.dragged(x, y),
                    ..self
                },
                InputEvent::PointerUp => SessionModel { tracker: self.tracker.released(), ..self },
                InputEvent::PointerSample { down, x, y } => SessionModel {
                    tracker: self.tracker.sampled(down, x, y),
                    ..self
                },
                InputEvent::Resized { width, height } => SessionModel {
                    tracker: self.tracker.resized(width, height),
                    ..self
                },
                InputEvent::CloseRequested => SessionModel {
                    closing: true,
                    stage: if self.stage is Idle {
                        FrameStage::Stopped
                    } else {
                        self.stage
                    },
                    ..self
                },
                InputEvent::Other => self,
            }
        }
    }

    /// What the loop is told to do about an event of the window.
    pub open spec fn input_action(self, event: InputEvent) -> InputAction {
        if self.stage is Stopped {
            InputAction::Ignore
        } else {
            match event {
                InputEvent::Resized { width, height } => if TrackerModel::accepts_size(
                    width,
                    height,
                ) {
                    InputAction::ResizeSurface { width, height }
                } else {
                    InputAction::Ignore
                },
                InputEvent::CloseRequested => if self.stage is Idle {
                    InputAction::Exit
                } else {
                    InputAction::Ignore
                },
                _ => InputAction::Forward,
            }
        }
    }

    /// Whether `event` is what the stage in hand waits for.
    pub open spec fn expects(self, event: EventModel) -> bool {
        match (self.stage, event) {
            (FrameStage::Idle, EventModel::Redraw { .. }) => true,
            (FrameStage::Compiling, EventModel::Compiled(_)) => true,
            (stage, EventModel::Done) => stage.on_surface(),
            (stage, EventModel::Failed(_)) => stage.on_surface(),
            _ => false,
        }
    }

    /// The session after `event` of a frame.
    pub open spec fn stepped(self, event: EventModel) -> SessionModel {
        match (self.stage, event) {
            (FrameStage::Idle, EventModel::Redraw { now }) => SessionModel {
                tracker: self.tracker.ticked(now as nat),
                stage: FrameStage::Compiling,
                ..self
            },
            (FrameStage::Compiling, EventModel::Compiled(outcome)) => {
                if self.program.verdict(outcome) == Verdict::Fatal {
                    SessionModel { stage: FrameStage::Stopped, ..self }
                } else {
                    SessionModel {
                        program: self.program.after(outcome),
                        frame_uniforms: self.tracker.snapshot(),
                        stage: FrameStage::Clearing,
                        ..self
                    }
                }
            },
            (FrameStage::Clearing, EventModel::Done) => SessionModel {
                stage: FrameStage::Drawing,
                ..self
            },
            (FrameStage::Drawing, EventModel::Done) => SessionModel {
                stage: FrameStage::Compositing,
                ..self
            },
            (FrameStage::Compositing, EventModel::Done) => SessionModel {
                stage: FrameStage::Presenting,
                ..self
            },
            (FrameStage::Presenting, EventModel::Done) => SessionModel {
                stage: if self.closing {
                    FrameStage::Stopped
                } else {
                    FrameStage::Idle
                },
                ..self
            },
            (stage, EventModel::Failed(_)) => if stage.on_surface() {
                SessionModel { stage: FrameStage::Stopped, ..self }
            } else {
                self
            },
            _ => self,
        }
    }

    /// What the loop is told to do after `event` of a frame.
    pub open spec fn command(self, event: EventModel) -> CommandModel {
        match (self.stage, event) {
            (FrameStage::Idle, EventModel::Redraw { now }) => CommandModel::Compile {
                vertex: self.sources.vertex,
                fragment: self.sources.fragment_text(),
            },
            (FrameStage::Compiling, EventModel::Compiled(outcome)) => {
                if self.program.verdict(outcome) == Verdict::Fatal {
                    CommandModel::Abort { diagnostic: outcome.diagnostic() }
                } else {
                    CommandModel::Clear {
                        color: background(),
                        verdict: self.program.verdict(outcome),
                        report: match outcome {
                            OutcomeModel::Linked => None,
                            OutcomeModel::Failed(diagnostic) => Some(diagnostic),
                        },
                    }
                }
            },
            (FrameStage::Clearing, EventModel::Done) => CommandModel::Draw {
                program: self.program->0,
                uniforms: self.frame_uniforms,
            },
            (FrameStage::Drawing, EventModel::Done) => CommandModel::Composite,
            (FrameStage::Compositing, EventModel::Done) => CommandModel::Present,
            (FrameStage::Presenting, EventModel::Done) => if self.closing {
                CommandModel::Exit
            } else {
                CommandModel::Wait
            },
            (stage, EventModel::Failed(detail)) => if stage.on_surface() {
                CommandModel::Abort { diagnostic: detail }
            } else {
                CommandModel::Ignore
            },
            _ => CommandModel::Ignore,
        }
    }
}

/// The state of one editing session.
#[derive(Debug)]
pub struct Session {
    sources: ShaderSourceSet,
    tracker: UniformTracker,
    program: u64,
    stage: FrameStage,
    closing: bool,
    frame_uniforms: UniformSnapshot,
}

impl View for Session {
    type V = SessionModel;

    closed spec fn view(&self) -> SessionModel {
        SessionModel {
            sources: self.sources@,
            tracker: self.tracker@,
            program: ProgramState::Valid(self.program),
            stage: self.stage,
            closing: self.closing,
            frame_uniforms: self.frame_uniforms@,
        }
    }
}

impl Session {
    #[verifier::type_invariant]
    spec fn well_formed(&self) -> bool {
        self.tracker@.valid()
    }

    /// Begins a session from the shader text and the outcome of the first
    /// compile of it. If that compile failed there is no program to draw
    /// with, and no session: the error carries the diagnostic.
    pub fn start(sources: ShaderSourceSet, first_compile: CompileOutcome) -> (session: Result<
        Session,
        StartupError,
    >)
        ensures
            match first_compile {
                CompileOutcome::Linked => session is Ok && session->Ok_0@ == SessionModel::started(
                    sources@,
                ) && session->Ok_0@.valid(),
                CompileOutcome::Failed(diagnostic) => session is Err && session->Err_0
                    == StartupError::InitialCompile(diagnostic),
            },
    {
        let mut state = ProgramState::new();
        let _ = state.apply(&first_compile);
        match state.active() {
            Some(program) => {
                let tracker = UniformTracker::new();
                let frame_uniforms = tracker.snapshot();
                Ok(
                    Session {
                        sources,
                        tracker,
                        program,
                        stage: FrameStage::Idle,
                        closing: false,
                        frame_uniforms,
                    },
                )
            },
            None => Err(StartupError::InitialCompile(first_compile.into_diagnostic())),
        }
    }

    /// Takes in an event of the window and says what the loop is to do about
    /// it. A resize with a zero dimension is dropped: it changes nothing and
    /// asks for nothing.
    pub fn handle_input(&mut self, event: InputEvent) -> (action: InputAction)
        ensures
            final(self)@ == old(self)@.after_input(event),
            action == old(self)@.input_action(event),
            final(self)@.valid(),
    {
        proof {
            use_type_invariant(&*self);
        }
        if let FrameStage::Stopped = self.stage {
            return InputAction::Ignore;
        }
        let mut tracker = self.tracker;
        match event {
            InputEvent::PointerDown { x, y } => {
                tracker.pointer_pressed(x, y);
                self.tracker = tracker;
                InputAction::Forward
            },
            InputEvent::PointerDrag { x, y } => {
                tracker.pointer_dragged(x, y);
                self.tracker = tracker;
                InputAction::Forward
            },
            InputEvent::PointerUp => {
                tracker.pointer_released();
                self.tracker = tracker;
                InputAction::Forward
            },
            InputEvent::PointerSample { down, x, y } => {
                tracker.pointer_sampled(down, x, y);
                self.tracker = tracker;
                InputAction::Forward
            },
            InputEvent::Resized { width, height } => {
                let applied = tracker.resize(width, height);
                self.tracker = tracker;
                if applied {
                    InputAction::ResizeSurface { width, height }
                } else {
                    InputAction::Ignore
                }
            },
            InputEvent::CloseRequested => {
                self.closing = true;
                if let FrameStage::Idle = self.stage {
                    self.stage = FrameStage::Stopped;
                    InputAction::Exit
                } else {
                    InputAction::Ignore
                }
            },
            InputEvent::Other => InputAction::Forward,
        }
    }

    /// Takes in what the loop reports of the frame in hand and says what it
    /// is to do next. The steps of a frame come in one order: compile, clear,
    /// draw, composite, present. A compile that fails costs the frame
    /// nothing: it is drawn with the program that was active before. A
    /// failure on the surface ends the session. A report that does not
    /// belong to the stage in hand is ignored.
    pub fn step(&mut self, event: FrameEvent) -> (command: FrameCommand)
        ensures
            final(self)@ == old(self)@.stepped(event@),
            command@ == old(self)@.command(event@),
            final(self)@.valid(),
    {
        proof {
            use_type_invariant(&*self);
        }
        match event {
            FrameEvent::Redraw { now } => {
                if let FrameStage::Idle = self.stage {
                    let mut tracker = self.tracker;
                    let _ = tracker.advance_time(now);
                    self.tracker = tracker;
                    self.stage = FrameStage::Compiling;
                    FrameCommand::Compile {
                        vertex: self.sources.vertex_source(),
                        fragment: self.sources.fragment_source(),
                    }
                } else {
                    FrameCommand::Ignore
                }
            },
            FrameEvent::Compiled(outcome) => {
                if let FrameStage::Compiling = self.stage {
                    let mut program = ProgramState::Valid(self.program);
                    let verdict = program.apply(&outcome);
                    match verdict {
                        Verdict::Installed { program, .. } => {
                            self.program = program;
                        },
                        _ => {},
                    }
                    self.frame_uniforms = self.tracker.snapshot();
                    self.stage = FrameStage::Clearing;
                    let report = match outcome {
                        CompileOutcome::Linked => None,
                        CompileOutcome::Failed(diagnostic) => Some(diagnostic),
                    };
                    FrameCommand::Clear { color: background_color(), verdict, report }
                } else {
                    FrameCommand::Ignore
                }
            },
            FrameEvent::Done => {
                match self.stage {
                    FrameStage::Clearing => {
                        self.stage = FrameStage::Drawing;
                        FrameCommand::Draw { program: self.program, uniforms: self.frame_uniforms }
                    },
                    FrameStage::Drawing => {
                        self.stage = FrameStage::Compositing;
                        FrameCommand::Composite
                    },
                    FrameStage::Compositing => {
                        self.stage = FrameStage::Presenting;
                        FrameCommand::Present
                    },
                    FrameStage::Presenting => {
                        if self.closing {
                            self.stage = FrameStage::Stopped;
                            FrameCommand::Exit
                        } else {
                            self.stage = FrameStage::Idle;
                            FrameCommand::Wait
                        }
                    },
                    _ => FrameCommand::Ignore,
                }
            },
            FrameEvent::Failed(detail) => {
                match self.stage {
                    FrameStage::Clearing
                    | FrameStage::Drawing
                    | FrameStage::Compositing
                    | FrameStage::Presenting => {
                        self.stage = FrameStage::Stopped;
                        FrameCommand::Abort { diagnostic: detail }
                    },
                    _ => FrameCommand::Ignore,
                }
            },
        }
    }

    /// Replaces the body of the fragment source by what the editor holds
    /// now. The next compile takes it up.
    pub fn edit_body(&mut self, body: String)
        ensures
            final(self)@ == old(self)@.edited(body@),
            final(self)@.valid(),
    {
        proof {
            use_type_invariant(&*self);
        }
        self.sources.fragment_body = body;
    }

    /// The body of the fragment source, for the editor to show.
    pub fn body(&self) -> (text: String)
        ensures
            text@ == self@.sources.body,
    {
        self.sources.fragment_body.clone()
    }

    /// How far the frame in hand has come.
    pub fn stage(&self) -> (stage: FrameStage)
        ensures
            stage == self@.stage,
    {
        self.stage
    }

    /// The number of the active program. There always is one.
    pub fn active_program(&self) -> (program: u64)
        ensures
            self@.program == ProgramState::Valid(program),
    {
        self.program
    }

    /// Whether the window is to close once the frame in hand is presented.
    pub fn is_closing(&self) -> (closing: bool)
        ensures
            closing == self@.closing,
    {
        self.closing
    }

    /// Whether the session has ended.
    pub fn is_stopped(&self) -> (stopped: bool)
        ensures
            stopped == (self@.stage is Stopped),
    {
        match self.stage {
            FrameStage::Stopped => true,
            _ => false,
        }
    }

    /// The uniform values as the events of the window have left them.
    pub fn uniforms(&self) -> (values: UniformSnapshot)
        ensures
            values@ == self@.tracker.snapshot(),
            self@.valid(),
    {
        self.tracker.snapshot()
    }

    /// Whether the fragment program takes the pointer uniform: it does where
    /// the body is framed by a head or a tail.
    pub fn takes_pointer(&self) -> (framed: bool)
        ensures
            framed == self@.sources.is_framed(),
    {
        self.sources.is_framed()
    }
}

/// No event of the window and no report of a frame takes a valid session to
/// one that is not: once begun, a session always has a program to draw with.
pub proof fn lemma_session_stays_valid(session: SessionModel, input: InputEvent, event: EventModel)
    requires
        session.valid(),
    ensures
        session.after_input(input).valid(),
        session.stepped(event).valid(),
{
}

/// A frame that nothing goes wrong in runs through its steps in one order:
/// compile, clear, draw, composite, present; then the session waits for the
/// next redraw, or has ended if the window was asked to close.
pub proof fn lemma_frame_order(session: SessionModel, now: u64, outcome: OutcomeModel)
    requires
        session.valid(),
        session.stage is Idle,
    ensures
        ({
            let compiling = session.stepped(EventModel::Redraw { now });
            let clearing = compiling.stepped(EventModel::Compiled(outcome));
            let drawing = clearing.stepped(EventModel::Done);
            let compositing = drawing.stepped(EventModel::Done);
            let presenting = compositing.stepped(EventModel::Done);
            let rest = presenting.stepped(EventModel::Done);
            &&& session.command(EventModel::Redraw { now }) is Compile
            &&& compiling.stage is Compiling
            &&& compiling.command(EventModel::Compiled(outcome)) is Clear
            &&& clearing.stage is Clearing
            &&& clearing.command(EventModel::Done) is Draw
            &&& drawing.stage is Drawing
            &&& drawing.command(EventModel::Done) is Composite
            &&& compositing.stage is Compositing
            &&& compositing.command(EventModel::Done) is Present
            &&& presenting.stage is Presenting
            &&& presenting.command(EventModel::Done) == if session.closing {
                CommandModel::Exit
            } else {
                CommandModel::Wait
            }
            &&& rest.stage == if session.closing {
                FrameStage::Stopped
            } else {
                FrameStage::Idle
            }
        }),
{
}

/// The compiler is handed the text as it stands when the frame begins: the
/// vertex source, and the fragment source put together from head, body and
/// tail.
pub proof fn lemma_compile_takes_current_text(session: SessionModel, body: Seq<char>, now: u64)
    requires
        session.stage is Idle,
    ensures
        session.edited(body).command(EventModel::Redraw { now }) == (CommandModel::Compile {
            vertex: session.sources.vertex,
            fragment: session.sources.with_body(body).fragment_text(),
        }),
{
}

/// Where head and tail hold nothing, the fragment source that the compiler
/// is handed is the body itself.
pub proof fn lemma_empty_frame_compiles_body(session: SessionModel, now: u64)
    requires
        session.stage is Idle,
        text_or_empty(session.sources.head).len() == 0,
        text_or_empty(session.sources.tail).len() == 0,
    ensures
        session.command(EventModel::Redraw { now }) == (CommandModel::Compile {
            vertex: session.sources.vertex,
            fragment: session.sources.body,
        }),
{
    lemma_empty_frame(session.sources);
}

/// When the compile of a frame succeeds, the new program takes the place of
/// the active one, and it is the new program that the frame is drawn with.
pub proof fn lemma_successful_recompile_is_drawn(session: SessionModel)
    requires
        session.valid(),
        session.stage is Compiling,
    ensures
        ({
            let clearing = session.stepped(EventModel::Compiled(OutcomeModel::Linked));
            &&& clearing.program.is_valid()
            &&& clearing.program != session.program
            &&& clearing.program == session.program.after(OutcomeModel::Linked)
            &&& session.command(EventModel::Compiled(OutcomeModel::Linked)) == (
            CommandModel::Clear {
                color: background(),
                verdict: Verdict::Installed {
                    program: session.program.next_number(),
                    superseded: Some(session.program->0),
                },
                report: None,
            })
            &&& clearing.command(EventModel::Done) matches CommandModel::Draw { program, .. }
                && clearing.program == ProgramState::Valid(program)
        }),
{
}

/// When the compile of a frame fails, the session does not end: the
/// diagnostic is handed out to be logged, the active program stays the one
/// it was, and the frame is drawn with it.
pub proof fn lemma_failed_recompile_keeps_program(session: SessionModel, diagnostic: Seq<char>)
    requires
        session.valid(),
        session.stage is Compiling,
    ensures
        ({
            let failed = EventModel::Compiled(OutcomeModel::Failed(diagnostic));
            let clearing = session.stepped(failed);
            &&& clearing.program == session.program
            &&& clearing.stage is Clearing
            &&& session.command(failed) == (CommandModel::Clear {
                color: background(),
                verdict: Verdict::Retained { program: session.program->0 },
                report: Some(diagnostic),
            })
            &&& clearing.command(EventModel::Done) matches CommandModel::Draw { program, .. }
                && session.program == ProgramState::Valid(program)
        }),
{
}

/// A frame is drawn with the uniform values as they stand when the compiler
/// returns: every event of the window that came before is in them, and none
/// that comes after changes them.
pub proof fn lemma_draw_sees_earlier_events(
    session: SessionModel,
    before: InputEvent,
    outcome: OutcomeModel,
    after: InputEvent,
)
    requires
        session.valid(),
        session.stage is Compiling,
    ensures
        ({
            let clearing = session.after_input(before).stepped(EventModel::Compiled(outcome));
            &&& clearing.frame_uniforms == session.after_input(before).tracker.snapshot()
            &&& clearing.after_input(after).frame_uniforms == clearing.frame_uniforms
            &&& clearing.after_input(after).command(EventModel::Done) matches CommandModel::Draw {
                uniforms,
                ..
            } && uniforms == clearing.frame_uniforms
        }),
{
}

/// A resize with a zero dimension is dropped: the session is as it was, and
/// the surface is not touched.
pub proof fn lemma_zero_resize_is_ignored(session: SessionModel, width: u32, height: u32)
    requires
        width == 0 || height == 0,
    ensures
        session.after_input(InputEvent::Resized { width, height }) == session,
        session.input_action(InputEvent::Resized { width, height }) == InputAction::Ignore,
{
}

/// A resize that leaves the surface with a pixel reaches both the resolution
/// and the surface, with the same size.
pub proof fn lemma_resize_reaches_surface(session: SessionModel, width: u32, height: u32)
    requires
        !(session.stage is Stopped),
        width > 0,
        height > 0,
    ensures
        session.after_input(InputEvent::Resized { width, height }).tracker.snapshot().resolution
            == (width as nat, height as nat, 1nat),
        session.input_action(InputEvent::Resized { width, height }) == (InputAction::ResizeSurface {
            width,
            height,
        }),
{
}

/// The surface is never asked to take a size with a zero dimension.
pub proof fn lemma_surface_never_empty(session: SessionModel, event: InputEvent)
    ensures
        session.input_action(event) matches InputAction::ResizeSurface { width, height } ==> width
            > 0 && height > 0 && event == (InputEvent::Resized { width, height }),
{
}

/// A failure while the surface is worked on ends the session, with the
/// failure's own words as the diagnostic.
pub proof fn lemma_surface_failure_is_fatal(session: SessionModel, detail: Seq<char>)
    requires
        session.stage.on_surface(),
    ensures
        session.stepped(EventModel::Failed(detail)).stage is Stopped,
        session.command(EventModel::Failed(detail)) == (CommandModel::Abort { diagnostic: detail }),
{
}

/// A report that the stage in hand does not wait for changes nothing and
/// asks for nothing; one that it waits for always asks for something.
pub proof fn lemma_unexpected_report_is_ignored(session: SessionModel, event: EventModel)
    requires
        session.valid(),
    ensures
        !session.expects(event) ==> session.stepped(event) == session && session.command(event)
            is Ignore,
        session.expects(event) ==> !(session.command(event) is Ignore),
{
}

/// A session that has ended stays as it is.
pub proof fn lemma_stopped_is_final(session: SessionModel, input: InputEvent, event: EventModel)
    requires
        session.stage is Stopped,
    ensures
        session.after_input(input) == session,
        session.input_action(input) == InputAction::Ignore,
        session.stepped(event) == session,
        session.command(event) is Ignore,
{
}

/// A request to close ends the session at once where no frame is in hand.
/// During a frame it only leaves a mark, and the frame goes on to be
/// presented; then the loop is told to leave.
pub proof fn lemma_close_waits_for_present(session: SessionModel)
    requires
        !(session.stage is Stopped),
    ensures
        ({
            let closing = session.after_input(InputEvent::CloseRequested);
            &&& closing.closing
            &&& session.stage is Idle ==> closing.stage is Stopped && session.input_action(
                InputEvent::CloseRequested,
            ) == InputAction::Exit
            &&& !(session.stage is Idle) ==> closing.stage == session.stage && session.input_action(
                InputEvent::CloseRequested,
            ) == InputAction::Ignore
            &&& closing.stage is Presenting ==> closing.command(EventModel::Done)
                == CommandModel::Exit && closing.stepped(EventModel::Done).stage is Stopped
        }),
{
}

/// Elapsed time moves only when a frame begins, and then never backwards;
/// the first frame of a session is drawn at time zero.
pub proof fn lemma_elapsed_moves_with_frames(
    session: SessionModel,
    input: InputEvent,
    event: EventModel,
)
    requires
        session.valid(),
    ensures
        session.after_input(input).tracker.clock == session.tracker.clock,
        session.stepped(event).tracker.clock.elapsed >= session.tracker.clock.elapsed,
        !(session.stage is Idle && event is Redraw) ==> session.stepped(event).tracker.clock
            == session.tracker.clock,
        session.tracker.clock.origin is None && session.stage is Idle && event is Redraw
            ==> session.stepped(event).tracker.clock.elapsed == 0,
{
}

} // verus!
