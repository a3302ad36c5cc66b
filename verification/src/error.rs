use vstd::prelude::*;

verus! {

/// Why a tool call requested by the model could not be carried out.
#[derive(Debug)]
pub enum ToolCallError {
    /// The model asked for a tool that was never added.
    UnknownToolName,
    /// The tool ran and failed, with this message.
    InternalToolError(String),
}

/// The errors of a coordinator run.
#[derive(Debug)]
pub enum OllamaError {
    ToolCallError(ToolCallError),
    Other(String),
}

} // verus!
