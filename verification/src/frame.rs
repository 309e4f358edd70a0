//! The steps of one frame: what the render loop reports, and what it is told
//! to do next.

use vstd::prelude::*;
use crate::program::{CompileOutcome, OutcomeModel, Verdict};
use crate::source::part_view;
use crate::uniforms::{SnapshotModel, UniformSnapshot};

verus! {

/// A colour with eight bits to the channel.
#[derive(Clone, Copy, Debug, PartialEq, Eq, Structural)]
pub struct Rgba {
    pub red: u8,
    pub green: u8,
    pub blue: u8,
    pub alpha: u8,
}

/// The colour a frame is cleared to: opaque black.
pub open spec fn background() -> Rgba {
    Rgba { red: 0, green: 0, blue: 0, alpha: 255 }
}

/// How far the frame in hand has come.
#[derive(Clone, Copy, Debug, PartialEq, Eq, Structural)]
pub enum FrameStage {
    /// No frame in hand.
    Idle,
    /// The compiler has been asked for a program.
    Compiling,
    /// The surface is being cleared.
    Clearing,
    /// The pass is being drawn.
    Drawing,
    /// The editor is being composited over the pass.
    Compositing,
    /// The frame is being presented.
    Presenting,
    /// The session has ended; nothing more is drawn.
    Stopped,
}

impl FrameStage {
    /// The stages in which the surface is worked on, and a failure is fatal.
    pub open spec fn on_surface(self) -> bool {
        self is Clearing || self is Drawing || self is Compositing || self is Presenting
    }
}

/// The colour a frame is cleared to.
pub fn background_color() -> (color: Rgba)
    ensures
        color == background(),
{
    Rgba { red: 0, green: 0, blue: 0, alpha: 255 }
}

/// What the loop reports during a frame.
#[derive(Clone, Debug, PartialEq, Eq)]
pub enum FrameEvent {
    /// A redraw is due; `now` is the reading of a monotonic timer, in
    /// nanoseconds.
    Redraw { now: u64 },
    /// The compiler has returned.
    Compiled(CompileOutcome),
    /// What the last command asked for is done.
    Done,
    /// What the last command asked for has failed; the text says how.
    Failed(String),
}

/// What a [`FrameEvent`] stands for.
pub enum EventModel {
    Redraw { now: u64 },
    Compiled(OutcomeModel),
    Done,
    Failed(Seq<char>),
}

impl View for FrameEvent {
    type V = EventModel;

    open spec fn view(&self) -> EventModel {
        match self {
            FrameEvent::Redraw { now } => EventModel::Redraw { now: *now },
            FrameEvent::Compiled(outcome) => EventModel::Compiled(outcome@),
            FrameEvent::Done => EventModel::Done,
            FrameEvent::Failed(detail) => EventModel::Failed(detail@),
        }
    }
}

/// What the loop is to do next in a frame.
#[derive(Clone, Debug, PartialEq, Eq)]
pub enum FrameCommand {
    /// Compile and link these two sources, and report the outcome.
    Compile { vertex: String, fragment: String },
    /// The compiler's outcome is taken in. `verdict` says what becomes of
    /// the programs: the one just compiled is installed and the one before
    /// it released, or it is dropped and the active one kept. `report` is
    /// the diagnostic of a compile that failed: to be logged, no more. Then
    /// clear the surface to `color`.
    Clear { color: Rgba, verdict: Verdict, report: Option<String> },
    /// Draw the full-surface triangle with the program `program` and these
    /// uniform values.
    Draw { program: u64, uniforms: UniformSnapshot },
    /// Let the editor composite itself over the pass.
    Composite,
    /// Present the frame.
    Present,
    /// The frame is done; wait for the next redraw.
    Wait,
    /// The frame is done and the window is to close: leave the loop.
    Exit,
    /// The frame cannot be finished: end the process with this diagnostic.
    Abort { diagnostic: String },
    /// The event does not belong to the stage the frame is in: nothing.
    Ignore,
}

/// What a [`FrameCommand`] stands for.
pub enum CommandModel {
    Compile { vertex: Seq<char>, fragment: Seq<char> },
    Clear { color: Rgba, verdict: Verdict, report: Option<Seq<char>> },
    Draw { program: u64, uniforms: SnapshotModel },
    Composite,
    Present,
    Wait,
    Exit,
    Abort { diagnostic: Seq<char> },
    Ignore,
}

impl View for FrameCommand {
    type V = CommandModel;

    open spec fn view(&self) -> CommandModel {
        match self {
            FrameCommand::Compile { vertex, fragment } => CommandModel::Compile {
                vertex: vertex@,
                fragment: fragment@,
            },
            FrameCommand::Clear { color, verdict, report } => CommandModel::Clear {
                color: *color,
                verdict: *verdict,
                report: part_view(*report),
            },
            FrameCommand::Draw { program, uniforms } => CommandModel::Draw {
                program: *program,
                uniforms: uniforms@,
            },
            FrameCommand::Composite => CommandModel::Composite,
            FrameCommand::Present => CommandModel::Present,
            FrameCommand::Wait => CommandModel::Wait,
            FrameCommand::Exit => CommandModel::Exit,
            FrameCommand::Abort { diagnostic } => CommandModel::Abort { diagnostic: diagnostic@ },
            FrameCommand::Ignore => CommandModel::Ignore,
        }
    }
}

} // verus!
