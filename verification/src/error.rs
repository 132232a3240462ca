//! The errors of the program builder and of the scheduler.

use vstd::prelude::*;
use crate::stage::Stage;

verus! {

/// Everything that can go wrong while building the program or drawing a frame.
#[derive(Clone, Debug, PartialEq, Eq)]
pub enum RenderError {
    /// The context could not allocate a shader object for `stage`.
    ShaderAllocationFailed { stage: Stage },
    /// The compiler rejected the source of `stage`; `log` is its diagnostic.
    ShaderCompileFailed { stage: Stage, log: String },
    /// The context could not allocate a program object.
    ProgramAllocationFailed,
    /// The linker rejected the pair of stages; `log` is its diagnostic.
    ProgramLinkFailed { log: String },
    /// The linked program has no active uniform called `name`.
    UniformNotFound { name: String },
    /// A tick could not be carried out.
    TickFailed { reason: String },
}

/// The text that stands for a failed allocation, which has no log.
pub open spec fn allocation_text() -> Seq<char> {
    "Unable to create shader object"@
}

impl RenderError {
    /// The text that the error carries, as a mathematical value: the log, the
    /// name or the reason, or the fixed text of a failed allocation.
    pub open spec fn spec_diagnostic(self) -> Seq<char> {
        match self {
            RenderError::ShaderAllocationFailed { .. } => allocation_text(),
            RenderError::ShaderCompileFailed { log, .. } => log@,
            RenderError::ProgramAllocationFailed => allocation_text(),
            RenderError::ProgramLinkFailed { log } => log@,
            RenderError::UniformNotFound { name } => name@,
            RenderError::TickFailed { reason } => reason@,
        }
    }

    /// The text to show for the error: the driver's log of a failed compile
    /// or link, the name of a missing uniform, the reason of a failed tick,
    /// or the fixed text of a failed allocation.
    pub fn diagnostic(&self) -> (text: String)
        ensures
            text@ == self.spec_diagnostic(),
    {
        match self {
            RenderError::ShaderAllocationFailed { .. } | RenderError::ProgramAllocationFailed => {
                "Unable to create shader object".to_owned()
            },
            RenderError::ShaderCompileFailed { log, .. } => log.clone(),
            RenderError::ProgramLinkFailed { log } => log.clone(),
            RenderError::UniformNotFound { name } => name.clone(),
            RenderError::TickFailed { reason } => reason.clone(),
        }
    }
}

} // verus!
