//! The host platform and the outcome of running a platform inspection
//! utility. The unverified shell invokes the utility as a subprocess and
//! reports here what came of it; the verified readers decide everything
//! from that report alone.

use vstd::prelude::*;

verus! {

/// The platform family the process runs on, as far as device inspection
/// is concerned.
#[derive(Clone, Copy, Debug, PartialEq, Eq, Structural)]
pub enum Platform {
    MacOs,
    Windows,
    Other,
}

/// What running an inspection utility produced: its text output, output
/// that was not valid text, or no output at all because the utility could
/// not be run.
#[derive(Clone, Debug, PartialEq, Eq)]
pub enum ToolOutput {
    Text(String),
    Unreadable,
    Unavailable,
}

/// The mathematical shape of a `ToolOutput`.
pub enum ToolView {
    Text(Seq<char>),
    Unreadable,
    Unavailable,
}

impl View for ToolOutput {
    type V = ToolView;

    open spec fn view(&self) -> ToolView {
        match self {
            ToolOutput::Text(s) => ToolView::Text(s@),
            ToolOutput::Unreadable => ToolView::Unreadable,
            ToolOutput::Unavailable => ToolView::Unavailable,
        }
    }
}

} // verus!
