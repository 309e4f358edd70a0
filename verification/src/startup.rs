//! What is settled before the first frame: the parameters of the window, the
//! scale factor of the display, and the errors that end a session before it
//! has begun.

use vstd::prelude::*;

verus! {

/// The title of the window.
pub const WINDOW_TITLE: &'static str = "Shaderpad";

/// Why a session could not begin.
#[derive(Clone, Debug, PartialEq, Eq)]
pub enum StartupError {
    /// The scale factor given by the environment is no number; the text says
    /// what the parser made of it.
    InvalidScaleFactor(String),
    /// The first compile failed, so there is no program to draw with; the
    /// text is the compiler's diagnostic.
    InitialCompile(String),
}

impl StartupError {
    /// What introduces the detail in the message of this error.
    pub open spec fn prefix(self) -> Seq<char> {
        match self {
            StartupError::InvalidScaleFactor(_) => "Invalid scaling factor: "@,
            StartupError::InitialCompile(_) => "Initial shader compile failed: "@,
        }
    }

    /// The detail that the error carries.
    pub open spec fn detail(self) -> Seq<char> {
        match self {
            StartupError::InvalidScaleFactor(detail) => detail@,
            StartupError::InitialCompile(detail) => detail@,
        }
    }

    /// The message to end the process with: what went wrong, then the detail.
    pub fn message(&self) -> (text: String)
        ensures
            text@ == self.prefix() + self.detail(),
    {
        match self {
            StartupError::InvalidScaleFactor(detail) => {
                let mut text = String::from_str("Invalid scaling factor: ");
                text.append(detail.as_str());
                text
            },
            StartupError::InitialCompile(detail) => {
                let mut text = String::from_str("Initial shader compile failed: ");
                text.append(detail.as_str());
                text
            },
        }
    }
}

/// How the scale of the display is chosen.
#[derive(Clone, Copy, Debug, PartialEq, Eq, Structural)]
pub enum ScaleMode {
    /// As the platform reports it.
    Default,
    /// Fixed at the factor whose IEEE 754 double-precision bits these are.
    Locked(u64),
}

/// Chooses the scale mode from what the environment gave: nothing, a factor
/// that parsed (as its bits), or one that did not (with the parser's words).
/// Only the last is an error.
pub fn scale_mode(given: Option<Result<u64, String>>) -> (mode: Result<ScaleMode, StartupError>)
    ensures
        mode == match given {
            None => Ok::<ScaleMode, StartupError>(ScaleMode::Default),
            Some(Ok(bits)) => Ok(ScaleMode::Locked(bits)),
            Some(Err(detail)) => Err(StartupError::InvalidScaleFactor(detail)),
        },
{
    match given {
        None => Ok(ScaleMode::Default),
        Some(Ok(bits)) => Ok(ScaleMode::Locked(bits)),
        Some(Err(detail)) => Err(StartupError::InvalidScaleFactor(detail)),
    }
}

} // verus!
