//! The active program: which compiled program the pass draws with, and what
//! becomes of it when the compiler returns.
//!
//! The compiler itself runs outside. What it returned comes in as a
//! [`CompileOutcome`]; what is to be done about it goes out as a [`Verdict`].
//! A program is known here by a number that the slot gives to each program it
//! installs.

use vstd::prelude::*;

verus! {

/// What one run of the compiler on the current text returned.
#[derive(Clone, Debug, PartialEq, Eq)]
pub enum CompileOutcome {
    /// The sources compiled and linked.
    Linked,
    /// They did not; the text says why.
    Failed(String),
}

/// What a [`CompileOutcome`] stands for.
pub enum OutcomeModel {
    /// The sources compiled and linked.
    Linked,
    /// They did not; the text says why.
    Failed(Seq<char>),
}

impl View for CompileOutcome {
    type V = OutcomeModel;

    open spec fn view(&self) -> OutcomeModel {
        match self {
            CompileOutcome::Linked => OutcomeModel::Linked,
            CompileOutcome::Failed(diagnostic) => OutcomeModel::Failed(diagnostic@),
        }
    }
}

impl OutcomeModel {
    /// The diagnostic of a failure; empty for a success.
    pub open spec fn diagnostic(self) -> Seq<char> {
        match self {
            OutcomeModel::Linked => Seq::empty(),
            OutcomeModel::Failed(diagnostic) => diagnostic,
        }
    }
}

impl CompileOutcome {
    /// The diagnostic of a failure; empty for a success.
    pub fn into_diagnostic(self) -> (text: String)
        ensures
            text@ == self@.diagnostic(),
            self matches CompileOutcome::Failed(diagnostic) ==> text == diagnostic,
    {
        match self {
            CompileOutcome::Linked => String::new(),
            CompileOutcome::Failed(diagnostic) => diagnostic,
        }
    }
}

/// The life of the active program.
#[derive(Clone, Copy, Debug, PartialEq, Eq, Structural)]
pub enum ProgramState {
    /// No program has compiled yet.
    Uninitialized,
    /// The program with this number is active and can be drawn with.
    Valid(u64),
}

/// What the caller is to do once the compiler has returned.
#[derive(Clone, Copy, Debug, PartialEq, Eq, Structural)]
pub enum Verdict {
    /// The new program is now the active one, under the number `program`;
    /// the program `superseded`, if there was one, is to be released.
    Installed { program: u64, superseded: Option<u64> },
    /// The compile failed; the program `program` stays active and the frame
    /// goes on with it.
    Retained { program: u64 },
    /// The compile failed and there is no program to fall back to.
    Fatal,
}

impl ProgramState {
    /// Whether a program is active.
    pub open spec fn is_valid(self) -> bool {
        self is Valid
    }

    /// The number that the next installed program gets: one more than the
    /// active one's, starting again at one after the largest. It is never
    /// zero and never the number of the active program.
    pub open spec fn next_number(self) -> u64 {
        match self {
            ProgramState::Uninitialized => 1,
            ProgramState::Valid(number) => if number == u64::MAX {
                1
            } else {
                (number + 1) as u64
            },
        }
    }

    /// The state after the compiler has returned `outcome`: a success swaps
    /// the program, a failure keeps what there was.
    pub open spec fn after(self, outcome: OutcomeModel) -> ProgramState {
        match outcome {
            OutcomeModel::Linked => ProgramState::Valid(self.next_number()),
            OutcomeModel::Failed(_) => self,
        }
    }

    /// What the caller is told when the compiler has returned `outcome`.
    pub open spec fn verdict(self, outcome: OutcomeModel) -> Verdict {
        match (outcome, self) {
            (OutcomeModel::Linked, ProgramState::Uninitialized) => Verdict::Installed {
                program: self.next_number(),
                superseded: None,
            },
            (OutcomeModel::Linked, ProgramState::Valid(old)) => Verdict::Installed {
                program: self.next_number(),
                superseded: Some(old),
            },
            (OutcomeModel::Failed(_), ProgramState::Valid(old)) => Verdict::Retained {
                program: old,
            },
            (OutcomeModel::Failed(_), ProgramState::Uninitialized) => Verdict::Fatal,
        }
    }

    /// The state before the first compile.
    pub fn new() -> (state: ProgramState)
        ensures
            state == ProgramState::Uninitialized,
    {
        ProgramState::Uninitialized
    }

    /// The number of the active program, if there is one.
    pub fn active(&self) -> (program: Option<u64>)
        ensures
            program == match *self {
                ProgramState::Uninitialized => None::<u64>,
                ProgramState::Valid(number) => Some(number),
            },
    {
        match self {
            ProgramState::Uninitialized => None,
            ProgramState::Valid(number) => Some(*number),
        }
    }

    /// Takes in what the compiler returned. On success the new program
    /// replaces the active one, which is to be released. On failure the
    /// active program stays as it is; without one the failure is fatal.
    pub fn apply(&mut self, outcome: &CompileOutcome) -> (verdict: Verdict)
        ensures
            *final(self) == old(self).after(outcome@),
            verdict == old(self).verdict(outcome@),
    {
        match outcome {
            CompileOutcome::Linked => {
                let (program, superseded) = match *self {
                    ProgramState::Uninitialized => (1u64, None),
                    ProgramState::Valid(number) => if number == u64::MAX {
                        (1u64, Some(number))
                    } else {
                        (number + 1, Some(number))
                    },
                };
                *self = ProgramState::Valid(program);
                Verdict::Installed { program, superseded }
            },
            CompileOutcome::Failed(_) => match *self {
                ProgramState::Valid(number) => Verdict::Retained { program: number },
                ProgramState::Uninitialized => Verdict::Fatal,
            },
        }
    }
}

/// A compile that succeeds replaces the active program: the new one is valid,
/// is not the old one, and the old one is what the caller is told to release.
pub proof fn lemma_success_replaces_program(state: ProgramState)
    ensures
        state.after(OutcomeModel::Linked).is_valid(),
        state.after(OutcomeModel::Linked) != state,
        state.verdict(OutcomeModel::Linked) matches Verdict::Installed { program, superseded }
            && state.after(OutcomeModel::Linked) == ProgramState::Valid(program)
            && (match state {
                ProgramState::Uninitialized => superseded is None,
                ProgramState::Valid(old) => superseded == Some(old) && program != old,
            }),
{
}

/// A compile that fails leaves the active program as it was, and the caller
/// is told to go on with it.
pub proof fn lemma_failure_retains_program(state: ProgramState, diagnostic: Seq<char>)
    ensures
        state.after(OutcomeModel::Failed(diagnostic)) == state,
        state matches ProgramState::Valid(old) ==> state.verdict(OutcomeModel::Failed(diagnostic))
            == (Verdict::Retained { program: old }),
{
}

/// Once a program is active there is always one, whatever the compiler
/// returns from then on, and no verdict is fatal.
pub proof fn lemma_valid_is_kept(state: ProgramState, outcome: OutcomeModel)
    requires
        state.is_valid(),
    ensures
        state.after(outcome).is_valid(),
        state.verdict(outcome) != Verdict::Fatal,
{
}

/// The only fatal outcome is a failure of the very first compile, and the
/// only way out of the uninitialized state is a success.
pub proof fn lemma_fatal_only_at_first_compile(state: ProgramState, outcome: OutcomeModel)
    ensures
        state.verdict(outcome) == Verdict::Fatal <==> (state == ProgramState::Uninitialized
            && outcome is Failed),
        state == ProgramState::Uninitialized ==> (state.after(outcome).is_valid() <==> outcome
            is Linked),
{
}

} // verus!
