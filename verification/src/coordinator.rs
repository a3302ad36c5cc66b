use std::collections::VecDeque;
use vstd::prelude::*;

use crate::error::{OllamaError, ToolCallError};
use crate::message::{
    plain_message, queue_tool_calls, tool_calls_view, ChatHistory, ChatMessage, ChatMessageView,
    MessageRole, ToolCall, ToolCallView,
};
use crate::options::{unset_options, FormatType, KeepAlive, ModelOptions, ToolInfo};
use crate::step::{empty_step, Step, StepView};

verus! {

/// The system prompt used when none was set: it asks the model to think,
/// act with tools and observe their results in turn.
pub const DEFAULT_SYSTEM_PROMPT: &'static str = "You are an AI assistant that uses the ReAct (Reasoning + Acting) framework to solve problems systematically.

For each user request, you should:
1. **Think** about what you need to do to solve the problem
2. **Act** by using available tools when you need external information or capabilities
3. **Observe** the results from your actions
4. Continue this cycle until you have a complete answer

When you respond, please structure your response as follows:
- Start with \"Thought: \" followed by your reasoning about the current situation
- Then use any tools you need to gather information
- I will show you the tool results, and you can continue thinking and acting until you're ready to provide a final answer

Be explicit about your thought process and use tools proactively when you need external information.";

/// The text of the error returned when a step is asked for before `start`.
pub const NOT_INITIALIZED_MESSAGE: &'static str = "Coordinator not initialized. Call start() first.";

/// The number of steps a new coordinator allows.
pub const DEFAULT_MAX_ITERATIONS: usize = 10;

/// The state of a reasoning-and-acting run: the settings of the requests it
/// makes, the conversation so far, the tools the model may call, and how many
/// steps have been taken.
///
/// The model is reached, and the tools are run, by the caller: the
/// coordinator says what to send and takes back what came.
pub struct Coordinator<C: ChatHistory + Default> {
    model: String,
    options: ModelOptions,
    trajectory: C,
    tool_infos: Vec<ToolInfo>,
    system_prompt: Option<String>,
    debug: bool,
    format: Option<FormatType>,
    keep_alive: Option<KeepAlive>,
    current_step: usize,
    max_iterations: usize,
    is_initialized: bool,
    think: Option<bool>,
}

/// The mathematical state of a coordinator.
pub struct CoordinatorView {
    pub model: Seq<char>,
    pub options: ModelOptions,
    pub trajectory: Seq<ChatMessageView>,
    pub tools: Seq<ToolInfo>,
    pub system_prompt: Option<Seq<char>>,
    pub debug: bool,
    pub format: Option<FormatType>,
    pub keep_alive: Option<KeepAlive>,
    pub current_step: nat,
    pub max_iterations: nat,
    pub is_initialized: bool,
    pub think: Option<bool>,
}

impl<C: ChatHistory + Default> View for Coordinator<C> {
    type V = CoordinatorView;

    closed spec fn view(&self) -> CoordinatorView {
        CoordinatorView {
            model: self.model@,
            options: self.options,
            trajectory: self.trajectory.history(),
            tools: self.tool_infos@,
            system_prompt: match self.system_prompt {
                Some(p) => Some(p@),
                None => None,
            },
            debug: self.debug,
            format: self.format,
            keep_alive: self.keep_alive,
            current_step: self.current_step as nat,
            max_iterations: self.max_iterations as nat,
            is_initialized: self.is_initialized,
            think: self.think,
        }
    }
}

/// What is sent to the model for one step: the model's name and the
/// request's settings. The messages sent are the coordinator's trajectory.
pub struct ChatRequest<'a> {
    pub model: &'a String,
    pub options: &'a ModelOptions,
    pub tools: &'a Vec<ToolInfo>,
    pub keep_alive: Option<KeepAlive>,
    pub think: Option<bool>,
    pub format: Option<&'a FormatType>,
}

/// What asking for a step does, by the state of the coordinator.
pub enum BeginOutcome {
    /// `start` was not called: the request is refused.
    NotInitialized,
    /// All steps allowed have been taken: there is no further step.
    Exhausted,
    /// A new step begins, and the model is to be asked.
    Started,
}

/// The system prompt that `start` sends: the one set, or the default one.
pub open spec fn system_text(v: CoordinatorView) -> Seq<char> {
    match v.system_prompt {
        Some(p) => p,
        None => DEFAULT_SYSTEM_PROMPT@,
    }
}

/// The state after `start(prompt)`: a coordinator that has already started
/// is left as it is; otherwise the system prompt and then the user's prompt
/// are appended to the conversation.
pub open spec fn spec_start(v: CoordinatorView, prompt: Seq<char>) -> CoordinatorView {
    if v.is_initialized {
        v
    } else {
        CoordinatorView {
            trajectory: v.trajectory.push(plain_message(MessageRole::System, system_text(v))).push(
                plain_message(MessageRole::User, prompt),
            ),
            is_initialized: true,
            ..v
        }
    }
}

/// What asking for the next step does.
pub open spec fn begin_outcome(v: CoordinatorView) -> BeginOutcome {
    if !v.is_initialized {
        BeginOutcome::NotInitialized
    } else if v.current_step >= v.max_iterations {
        BeginOutcome::Exhausted
    } else {
        BeginOutcome::Started
    }
}

/// The state after asking for the next step: only a step that begins counts.
pub open spec fn spec_begin(v: CoordinatorView) -> CoordinatorView {
    match begin_outcome(v) {
        BeginOutcome::Started => CoordinatorView { current_step: v.current_step + 1, ..v },
        _ => v,
    }
}

/// The answer format is asked for when one is set and either no tool is
/// offered or the last message of the conversation is a tool's result.
pub open spec fn format_applies(v: CoordinatorView) -> bool {
    &&& v.format is Some
    &&& (v.tools.len() == 0 || (v.trajectory.len() > 0 && v.trajectory.last().role
        == MessageRole::Tool))
}

/// The step made of the model's answer: numbered by the current step, its
/// thought is the answer's text, and it is final when the model called no tool.
pub open spec fn response_step(v: CoordinatorView, m: ChatMessageView) -> StepView {
    StepView { thought: m.content, is_final: m.tool_calls.len() == 0, ..empty_step(v.current_step) }
}

/// The state after the model's answer arrives: the answer joins the conversation.
pub open spec fn spec_record_response(v: CoordinatorView, m: ChatMessageView) -> CoordinatorView {
    CoordinatorView { trajectory: v.trajectory.push(m), ..v }
}

/// How a tool call is recorded among a step's actions: `name(arguments)`.
pub open spec fn action_text(c: ToolCallView) -> Seq<char> {
    c.name + "("@ + c.arguments + ")"@
}

/// Whether a tool of this name was added.
pub open spec fn tool_registered(v: CoordinatorView, name: Seq<char>) -> bool {
    exists|i: int| 0 <= i < v.tools.len() && (#[trigger] v.tools[i]).function.name@ == name
}

/// The step after a tool call is taken up: the call joins its actions.
pub open spec fn spec_tool_action(s: StepView, c: ToolCallView) -> StepView {
    StepView { actions: s.actions.push(action_text(c)), ..s }
}

/// The step after a tool's output arrives: the output joins its observations.
pub open spec fn spec_observe(s: StepView, output: Seq<char>) -> StepView {
    StepView { observations: s.observations.push(output), ..s }
}

/// The state after a tool's output arrives: it joins the conversation as a
/// tool message.
pub open spec fn spec_record_output(v: CoordinatorView, output: Seq<char>) -> CoordinatorView {
    CoordinatorView { trajectory: v.trajectory.push(plain_message(MessageRole::Tool, output)), ..v }
}

/// A step whose tool calls are not all run yet.
#[derive(Debug)]
pub struct StepInProgress {
    step: Step,
    pending: VecDeque<ToolCall>,
}

/// A step waiting for the output of the tool call it handed out.
#[derive(Debug)]
pub struct AwaitingTool {
    step: Step,
    pending: VecDeque<ToolCall>,
    call: ToolCall,
}

/// What comes next in a step: a tool to run, or the finished step.
#[derive(Debug)]
pub enum Turn {
    Call(AwaitingTool),
    Done(Step),
}

/// The mathematical content of a step in progress: the step so far and the
/// tool calls still to be run, in order.
pub struct StepProgressView {
    pub step: StepView,
    pub pending: Seq<ToolCallView>,
}

/// The mathematical content of a step waiting for a tool's output.
pub struct AwaitingView {
    pub step: StepView,
    pub pending: Seq<ToolCallView>,
    pub call: ToolCallView,
}

impl View for StepInProgress {
    type V = StepProgressView;

    closed spec fn view(&self) -> StepProgressView {
        StepProgressView { step: self.step@, pending: tool_calls_view(self.pending@) }
    }
}

impl View for AwaitingTool {
    type V = AwaitingView;

    closed spec fn view(&self) -> AwaitingView {
        AwaitingView {
            step: self.step@,
            pending: tool_calls_view(self.pending@),
            call: self.call@,
        }
    }
}

impl AwaitingTool {
    /// The tool call to run.
    pub fn call(&self) -> (r: &ToolCall)
        ensures
            r@ == self@.call,
    {
        &self.call
    }
}

/// The step in progress right after the model's answer: its calls are all
/// still to be run.
pub open spec fn response_progress(v: CoordinatorView, m: ChatMessageView) -> StepProgressView {
    StepProgressView { step: response_step(v, m), pending: m.tool_calls }
}

/// Handing out the first pending call: it joins the step's actions.
pub open spec fn take_call(p: StepProgressView) -> AwaitingView {
    AwaitingView {
        step: spec_tool_action(p.step, p.pending[0]),
        pending: p.pending.drop_first(),
        call: p.pending[0],
    }
}

/// The step after the awaited tool's output arrives.
pub open spec fn after_output(a: AwaitingView, output: Seq<char>) -> StepProgressView {
    StepProgressView { step: spec_observe(a.step, output), pending: a.pending }
}

impl<C: ChatHistory + Default> Coordinator<C> {
    /// The conversation value held by the coordinator.
    pub closed spec fn history_value(&self) -> C {
        self.trajectory
    }

    /// Creates a coordinator for `model` that continues `history`, or starts
    /// from the history type's default value when there is none.
    pub fn new(model: String, history: Option<C>) -> (r: Self)
        ensures
            history matches Some(h) ==> r.history_value() == h,
            history is None ==> call_ensures(C::default, (), r.history_value()),
            r@.trajectory == r.history_value().history(),
            r@.model == model@,
            r@.options == unset_options(),
            r@.tools == Seq::<ToolInfo>::empty(),
            r@.system_prompt is None,
            !r@.debug,
            r@.format is None,
            r@.keep_alive is None,
            r@.current_step == 0,
            r@.max_iterations == DEFAULT_MAX_ITERATIONS,
            !r@.is_initialized,
            r@.think is None,
    {
        let trajectory = match history {
            Some(h) => h,
            None => C::default(),
        };
        Coordinator {
            model,
            options: ModelOptions::default(),
            trajectory,
            tool_infos: Vec::new(),
            system_prompt: None,
            debug: false,
            format: None,
            keep_alive: None,
            current_step: 0,
            max_iterations: DEFAULT_MAX_ITERATIONS,
            is_initialized: false,
            think: None,
        }
    }

    /// Adds a tool that the model may call.
    pub fn add_tool(self, info: ToolInfo) -> (r: Self)
        ensures
            r@ == (CoordinatorView { tools: self@.tools.push(info), ..self@ }),
            r.history_value() == self.history_value(),
    {
        let mut s = self;
        s.tool_infos.push(info);
        s
    }

    /// Sets the system prompt sent by `start` in place of the default one.
    pub fn system_prompt(self, prompt: &str) -> (r: Self)
        ensures
            r@ == (CoordinatorView { system_prompt: Some(prompt@), ..self@ }),
            r.history_value() == self.history_value(),
    {
        let mut s = self;
        s.system_prompt = Some(prompt.to_owned());
        s
    }

    /// Sets the format the model is asked to answer in.
    pub fn format(self, format: FormatType) -> (r: Self)
        ensures
            r@ == (CoordinatorView { format: Some(format), ..self@ }),
            r.history_value() == self.history_value(),
    {
        let mut s = self;
        s.format = Some(format);
        s
    }

    /// Sets the parameters handed to the model.
    pub fn options(self, options: ModelOptions) -> (r: Self)
        ensures
            r@ == (CoordinatorView { options: options, ..self@ }),
            r.history_value() == self.history_value(),
    {
        let mut s = self;
        s.options = options;
        s
    }

    /// Turns diagnostic output on or off.
    pub fn debug(self, debug: bool) -> (r: Self)
        ensures
            r@ == (CoordinatorView { debug: debug, ..self@ }),
            r.history_value() == self.history_value(),
    {
        let mut s = self;
        s.debug = debug;
        s
    }

    /// Sets how long the model stays loaded after each request.
    pub fn keep_alive(self, keep_alive: KeepAlive) -> (r: Self)
        ensures
            r@ == (CoordinatorView { keep_alive: Some(keep_alive), ..self@ }),
            r.history_value() == self.history_value(),
    {
        let mut s = self;
        s.keep_alive = Some(keep_alive);
        s
    }

    /// Sets how many steps the coordinator allows.
    pub fn max_iterations(self, max_iterations: usize) -> (r: Self)
        ensures
            r@ == (CoordinatorView { max_iterations: max_iterations as nat, ..self@ }),
            r.history_value() == self.history_value(),
    {
        let mut s = self;
        s.max_iterations = max_iterations;
        s
    }

    /// Turns the model's thinking mode on or off.
    pub fn think(self, think: bool) -> (r: Self)
        ensures
            r@ == (CoordinatorView { think: Some(think), ..self@ }),
            r.history_value() == self.history_value(),
    {
        let mut s = self;
        s.think = Some(think);
        s
    }

    /// Starts the run with the user's prompt: the system prompt and the
    /// prompt join the conversation. Starting again changes nothing.
    pub fn start(&mut self, prompt: &str) -> (r: Result<(), OllamaError>)
        ensures
            r is Ok,
            final(self)@ == spec_start(old(self)@, prompt@),
            old(self)@.is_initialized ==> final(self).history_value() == old(self).history_value(),
            !old(self)@.is_initialized ==> final(self)@.trajectory == old(self)@.trajectory.push(
                ChatMessageView {
                    role: MessageRole::System,
                    content: match old(self)@.system_prompt {
                        Some(p) => p,
                        None => DEFAULT_SYSTEM_PROMPT@,
                    },
                    tool_calls: Seq::empty(),
                    thinking: None,
                },
            ).push(
                ChatMessageView {
                    role: MessageRole::User,
                    content: prompt@,
                    tool_calls: Seq::empty(),
                    thinking: None,
                },
            ),
    {
        if self.is_initialized {
            return Ok(());
        }
        let system = match &self.system_prompt {
            Some(p) => p.clone(),
            None => DEFAULT_SYSTEM_PROMPT.to_owned(),
        };
        self.trajectory.push(ChatMessage::system(system));
        self.trajectory.push(ChatMessage::user(prompt.to_owned()));
        self.is_initialized = true;
        Ok(())
    }

    /// Asks for the next step. Refused before `start`; `Ok(false)` when all
    /// the steps allowed have been taken; otherwise the step count goes up by
    /// one and `Ok(true)` says that the model is to be asked (see `request`).
    pub fn begin_step(&mut self) -> (r: Result<bool, OllamaError>)
        ensures
            final(self)@ == spec_begin(old(self)@),
            final(self).history_value() == old(self).history_value(),
            match begin_outcome(old(self)@) {
                BeginOutcome::NotInitialized => r matches Err(OllamaError::Other(m))
                    && m@ == NOT_INITIALIZED_MESSAGE@,
                BeginOutcome::Exhausted => r == Ok::<bool, OllamaError>(false),
                BeginOutcome::Started => r == Ok::<bool, OllamaError>(true),
            },
    {
        if !self.is_initialized {
            return Err(OllamaError::Other(NOT_INITIALIZED_MESSAGE.to_owned()));
        }
        if self.current_step >= self.max_iterations {
            return Ok(false);
        }
        self.current_step = self.current_step + 1;
        Ok(true)
    }

    /// What to send to the model for the current step.
    pub fn request(&self) -> (r: ChatRequest<'_>)
        ensures
            r.model@ == self@.model,
            *r.options == self@.options,
            r.tools@ == self@.tools,
            r.keep_alive == self@.keep_alive,
            r.think == self@.think,
            r.format is Some <==> format_applies(self@),
            r.format matches Some(f) ==> self@.format == Some(*f),
            r.format is Some <==> (self@.format is Some && (self@.tools.len() == 0 || (
            self@.trajectory.len() > 0 && self@.trajectory[self@.trajectory.len() - 1].role
                == MessageRole::Tool))),
    {
        let mut format: Option<&FormatType> = None;
        if let Some(f) = &self.format {
            if self.tool_infos.len() == 0 {
                format = Some(f);
            } else {
                let messages = self.trajectory.messages();
                if messages.len() > 0 {
                    let last = &messages[messages.len() - 1];
                    if last.role == MessageRole::Tool {
                        format = Some(f);
                    }
                }
            }
        }
        ChatRequest {
            model: &self.model,
            options: &self.options,
            tools: &self.tool_infos,
            keep_alive: self.keep_alive,
            think: self.think,
            format,
        }
    }

    /// Takes the model's answer for the current step: the answer joins the
    /// conversation, and the step made of it comes back together with the
    /// tool calls the model asked for, in order, still to be run. Without
    /// tool calls the step is final.
    pub fn record_response(&mut self, message: ChatMessage) -> (r: StepInProgress)
        ensures
            final(self)@ == spec_record_response(old(self)@, message@),
            r@ == response_progress(old(self)@, message@),
            r@.pending == message@.tool_calls,
            r@.step.thought == message@.content,
            r@.step.step_number == old(self)@.current_step,
            r@.step.is_final == (message@.tool_calls.len() == 0),
            r@.step.actions.len() == 0,
            r@.step.observations.len() == 0,
            final(self)@.trajectory == old(self)@.trajectory.push(message@),
    {
        let pending = queue_tool_calls(&message.tool_calls);
        let thought = message.content.clone();
        let mut step = Step::new(self.current_step).with_thought(thought);
        if message.tool_calls.len() == 0 {
            step = step.mark_final();
        }
        self.trajectory.push(message);
        StepInProgress { step, pending }
    }

    /// Whether a tool of this name was added.
    pub fn has_tool(&self, name: &String) -> (r: bool)
        ensures
            r == tool_registered(self@, name@),
    {
        let n = self.tool_infos.len();
        for i in 0..n
            invariant
                n == self.tool_infos@.len(),
                forall|j: int| 0 <= j < i ==> (#[trigger] self.tool_infos@[j]).function.name@ != name@,
        {
            if self.tool_infos[i].function.name == *name {
                return true;
            }
        }
        false
    }

    /// Hands out the next tool call of a step, in the order the model asked
    /// for them: the call joins the step's actions and is to be run; a tool
    /// that was never added is refused. When no call is left, the step is
    /// done.
    pub fn next_call(&self, progress: StepInProgress) -> (r: Result<Turn, OllamaError>)
        ensures
            progress@.pending.len() == 0 ==> (r matches Ok(Turn::Done(s)) && s@ == progress@.step),
            progress@.pending.len() > 0 && tool_registered(self@, progress@.pending[0].name) ==> (
            r matches Ok(Turn::Call(a)) && a@ == take_call(progress@) && a@.call
                == progress@.pending[0] && a@.pending == progress@.pending.drop_first() && a@.step
                == (StepView {
                actions: progress@.step.actions.push(
                    progress@.pending[0].name + "("@ + progress@.pending[0].arguments + ")"@,
                ),
                ..progress@.step
            })),
            progress@.pending.len() > 0 && !tool_registered(self@, progress@.pending[0].name) ==> (
            r matches Err(OllamaError::ToolCallError(ToolCallError::UnknownToolName))),
    {
        let StepInProgress { step, mut pending } = progress;
        let ghost before = pending@;
        match pending.pop_front() {
            None => Ok(Turn::Done(step)),
            Some(call) => {
                assert(tool_calls_view(pending@) =~= tool_calls_view(before).drop_first());
                let step = step.add_action(action_description(&call));
                if self.has_tool(&call.function.name) {
                    Ok(Turn::Call(AwaitingTool { step, pending, call }))
                } else {
                    Err(OllamaError::ToolCallError(ToolCallError::UnknownToolName))
                }
            },
        }
    }

    /// Takes what the tool being run returned: an output joins the step's
    /// observations and the conversation, and the step goes on with the
    /// calls left; a failure is passed on, ends the step, and changes nothing.
    pub fn record_tool_output(&mut self, awaiting: AwaitingTool, output: Result<String, String>) -> (r:
        Result<StepInProgress, OllamaError>)
        ensures
            output matches Ok(o) ==> (r matches Ok(p) && p@ == after_output(awaiting@, o@)
                && final(self)@ == spec_record_output(old(self)@, o@) && p@.pending
                == awaiting@.pending && p@.step == (StepView {
                observations: awaiting@.step.observations.push(o@),
                ..awaiting@.step
            }) && final(self)@.trajectory == old(self)@.trajectory.push(
                ChatMessageView {
                    role: MessageRole::Tool,
                    content: o@,
                    tool_calls: Seq::empty(),
                    thinking: None,
                },
            )),
            output matches Err(e) ==> (r matches Err(
                OllamaError::ToolCallError(ToolCallError::InternalToolError(m)),
            ) && m == e && final(self)@ == old(self)@ && final(self).history_value() == old(
                self,
            ).history_value()),
    {
        let AwaitingTool { step, pending, call } = awaiting;
        match output {
            Ok(o) => {
                let step = step.add_observation(o.clone());
                self.trajectory.push(ChatMessage::tool(o));
                Ok(StepInProgress { step, pending })
            },
            Err(e) => Err(OllamaError::ToolCallError(ToolCallError::InternalToolError(e))),
        }
    }

    /// The conversation so far.
    pub fn trajectory(&self) -> (r: &C)
        ensures
            *r == self.history_value(),
            r.history() == self@.trajectory,
    {
        &self.trajectory
    }

    /// How many steps have begun.
    pub fn current_step(&self) -> (r: usize)
        ensures
            r == self@.current_step,
    {
        self.current_step
    }

    /// Whether `start` was called.
    pub fn is_initialized(&self) -> (r: bool)
        ensures
            r == self@.is_initialized,
    {
        self.is_initialized
    }

    /// Whether diagnostic output is on.
    pub fn debug_enabled(&self) -> (r: bool)
        ensures
            r == self@.debug,
    {
        self.debug
    }

    /// How many steps the coordinator allows.
    pub fn iteration_limit(&self) -> (r: usize)
        ensures
            r == self@.max_iterations,
    {
        self.max_iterations
    }
}

} // verus!

verus! {

/// How a tool call is recorded among a step's actions: `name(arguments)`.
pub fn action_description(call: &ToolCall) -> (r: String)
    ensures
        r@ == action_text(call@),
        r@ == call.function.name@ + "("@ + call.function.arguments@ + ")"@,
{
    let mut r = call.function.name.clone();
    r.append("(");
    r.append(call.function.arguments.as_str());
    r.append(")");
    r
}

/// Adds a step to those collected so far, and says whether to ask for more:
/// collecting stops after a final step.
pub fn collect_step(steps: &mut Vec<Step>, step: Step) -> (more: bool)
    ensures
        final(steps)@ == old(steps)@.push(step),
        more == !step.is_final,
{
    let more = !step.is_final;
    steps.push(step);
    more
}

} // verus!
