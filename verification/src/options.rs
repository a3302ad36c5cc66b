use vstd::prelude::*;

verus! {

/// The unit of a keep-alive duration.
#[derive(Debug, Clone, Copy, PartialEq, Eq, Structural)]
pub enum TimeUnit {
    Seconds,
    Minutes,
    Hours,
}

/// How long the model stays loaded after a request.
#[derive(Debug, Clone, Copy, PartialEq, Eq, Structural)]
pub enum KeepAlive {
    Indefinitely,
    UnloadOnCompletion,
    Until { time: u64, unit: TimeUnit },
}

/// The format the model is asked to answer in: any JSON, or JSON that
/// follows the given schema (held as JSON text).
#[derive(Debug, Clone)]
pub enum FormatType {
    Json,
    StructuredJson(String),
}

/// Runtime and sampling parameters handed to the model unchanged.
///
/// A parameter that is a floating-point number is held as the bit pattern of
/// its `f32` (`f32::to_bits`), so that it travels through unchanged.
#[derive(Debug, Clone)]
pub struct ModelOptions {
    pub mirostat: Option<u8>,
    pub mirostat_eta: Option<u32>,
    pub mirostat_tau: Option<u32>,
    pub num_ctx: Option<u64>,
    pub num_gqa: Option<u32>,
    pub num_gpu: Option<u32>,
    pub num_thread: Option<u32>,
    pub repeat_last_n: Option<i32>,
    pub repeat_penalty: Option<u32>,
    pub temperature: Option<u32>,
    pub seed: Option<i32>,
    pub stop: Option<Vec<String>>,
    pub tfs_z: Option<u32>,
    pub num_predict: Option<i32>,
    pub top_k: Option<u32>,
    pub top_p: Option<u32>,
}

/// Options with no parameter set: the model uses its own defaults.
pub open spec fn unset_options() -> ModelOptions {
    ModelOptions {
        mirostat: None,
        mirostat_eta: None,
        mirostat_tau: None,
        num_ctx: None,
        num_gqa: None,
        num_gpu: None,
        num_thread: None,
        repeat_last_n: None,
        repeat_penalty: None,
        temperature: None,
        seed: None,
        stop: None,
        tfs_z: None,
        num_predict: None,
        top_k: None,
        top_p: None,
    }
}

impl Default for ModelOptions {
    fn default() -> (r: Self)
        ensures
            r == unset_options(),
    {
        ModelOptions {
            mirostat: None,
            mirostat_eta: None,
            mirostat_tau: None,
            num_ctx: None,
            num_gqa: None,
            num_gpu: None,
            num_thread: None,
            repeat_last_n: None,
            repeat_penalty: None,
            temperature: None,
            seed: None,
            stop: None,
            tfs_z: None,
            num_predict: None,
            top_k: None,
            top_p: None,
        }
    }
}

/// The kind of a tool offered to the model.
#[derive(Debug, Clone, Copy, PartialEq, Eq, Structural)]
pub enum ToolType {
    Function,
}

/// What the model is told about a function tool: its name, what it does, and
/// the JSON schema of its parameters (as JSON text).
#[derive(Debug, Clone)]
pub struct ToolFunctionInfo {
    pub name: String,
    pub description: String,
    pub parameters: String,
}

/// A tool offered to the model.
#[derive(Debug, Clone)]
pub struct ToolInfo {
    pub tool_type: ToolType,
    pub function: ToolFunctionInfo,
}

impl ToolInfo {
    pub fn new(name: String, description: String, parameters: String) -> (r: Self)
        ensures
            r.tool_type == ToolType::Function,
            r.function.name == name,
            r.function.description == description,
            r.function.parameters == parameters,
    {
        ToolInfo {
            tool_type: ToolType::Function,
            function: ToolFunctionInfo { name, description, parameters },
        }
    }
}

} // verus!
