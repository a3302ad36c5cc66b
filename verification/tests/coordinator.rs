use lib::coordinator::{
    action_description, collect_step, AwaitingTool, Coordinator, StepInProgress, Turn,
    DEFAULT_SYSTEM_PROMPT, NOT_INITIALIZED_MESSAGE,
};
use lib::error::{OllamaError, ToolCallError};
use lib::message::{ChatHistory, ChatMessage, MessageRole, ToolCall, ToolCallFunction};
use lib::options::{FormatType, KeepAlive, ModelOptions, TimeUnit, ToolInfo};
use lib::step::Step;

fn coordinator() -> Coordinator<Vec<ChatMessage>> {
    Coordinator::<Vec<ChatMessage>>::new("qwen3:0.6b".to_string(), None)
}

fn call(name: &str, arguments: &str) -> ToolCall {
    ToolCall {
        function: ToolCallFunction { name: name.to_string(), arguments: arguments.to_string() },
    }
}

fn answer(content: &str, calls: Vec<ToolCall>) -> ChatMessage {
    let mut m = ChatMessage::assistant(content.to_string());
    m.tool_calls = calls;
    m
}

fn expect_call(c: &Coordinator<Vec<ChatMessage>>, p: StepInProgress) -> AwaitingTool {
    match c.next_call(p) {
        Ok(Turn::Call(a)) => a,
        Ok(Turn::Done(s)) => panic!("step done early: {:?}", s),
        Err(e) => panic!("unexpected {:?}", e),
    }
}

fn expect_done(c: &Coordinator<Vec<ChatMessage>>, p: StepInProgress) -> Step {
    match c.next_call(p) {
        Ok(Turn::Done(s)) => s,
        Ok(Turn::Call(a)) => panic!("call left: {:?}", a.call()),
        Err(e) => panic!("unexpected {:?}", e),
    }
}

fn c_response(c: &mut Coordinator<Vec<ChatMessage>>, text: &str) -> StepInProgress {
    c.record_response(answer(text, vec![]))
}

fn calculator() -> ToolInfo {
    ToolInfo::new(
        "calculate".to_string(),
        "Perform basic math operations".to_string(),
        "{\"type\":\"object\"}".to_string(),
    )
}

#[test]
fn new_coordinator_defaults() {
    let c = coordinator();
    assert_eq!(c.current_step(), 0);
    assert!(!c.is_initialized());
    assert!(!c.debug_enabled());
    assert_eq!(c.iteration_limit(), 10);
    assert!(c.trajectory().is_empty());
    let r = c.request();
    assert_eq!(r.model, "qwen3:0.6b");
    assert!(r.tools.is_empty());
    assert!(r.keep_alive.is_none());
    assert!(r.think.is_none());
    assert!(r.format.is_none());
    assert!(r.options.temperature.is_none());
}

#[test]
fn new_coordinator_keeps_history() {
    let history = vec![
        ChatMessage::user("Previous question".to_string()),
        ChatMessage::assistant("Previous answer".to_string()),
    ];
    let c = Coordinator::new("m".to_string(), Some(history));
    assert_eq!(c.trajectory().len(), 2);
    assert_eq!(c.trajectory()[1].content, "Previous answer");
}

#[test]
fn step_before_start_is_refused() {
    let mut c = coordinator();
    match c.begin_step() {
        Err(OllamaError::Other(m)) => {
            assert_eq!(m, "Coordinator not initialized. Call start() first.");
            assert_eq!(m, NOT_INITIALIZED_MESSAGE);
        }
        other => panic!("unexpected {:?}", other),
    }
    assert_eq!(c.current_step(), 0);
}

#[test]
fn start_appends_default_system_prompt_then_user_prompt() {
    let mut c = coordinator();
    assert!(c.start("What's the current temperature?").is_ok());
    assert!(c.is_initialized());
    assert_eq!(c.current_step(), 0);
    let t = c.trajectory().messages();
    assert_eq!(t.len(), 2);
    assert_eq!(t[0].role, MessageRole::System);
    assert_eq!(t[0].content, DEFAULT_SYSTEM_PROMPT);
    assert!(t[0].content.starts_with("You are an AI assistant that uses the ReAct"));
    assert_eq!(t[1].role, MessageRole::User);
    assert_eq!(t[1].content, "What's the current temperature?");
}

#[test]
fn start_uses_custom_system_prompt() {
    let mut c = coordinator().system_prompt("You are a helpful assistant.");
    c.start("Hello").unwrap();
    assert_eq!(c.trajectory()[0].content, "You are a helpful assistant.");
}

#[test]
fn second_start_changes_nothing() {
    let mut c = coordinator();
    c.start("first").unwrap();
    assert!(c.start("second").is_ok());
    assert_eq!(c.trajectory().len(), 2);
    assert_eq!(c.trajectory()[1].content, "first");
}

#[test]
fn steps_stop_at_the_limit() {
    let mut c = coordinator().max_iterations(2);
    c.start("Count from 1 to 100").unwrap();
    assert!(matches!(c.begin_step(), Ok(true)));
    assert_eq!(c.current_step(), 1);
    assert!(matches!(c.begin_step(), Ok(true)));
    assert!(matches!(c.begin_step(), Ok(false)));
    assert!(matches!(c.begin_step(), Ok(false)));
    assert_eq!(c.current_step(), 2);
}

#[test]
fn zero_limit_grants_no_step() {
    let mut c = coordinator().max_iterations(0);
    c.start("x").unwrap();
    assert!(matches!(c.begin_step(), Ok(false)));
    assert_eq!(c.current_step(), 0);
}

#[test]
fn answer_without_tool_calls_is_a_final_step() {
    let mut c = coordinator().max_iterations(3);
    c.start("What is 2 + 2?").unwrap();
    assert!(matches!(c.begin_step(), Ok(true)));
    let progress = c.record_response(answer("Thought: 2 + 2 = 4", vec![]));
    let step = expect_done(&c, progress);
    assert_eq!(step.step_number, 1);
    assert!(step.is_final);
    assert!(step.actions.is_empty());
    assert!(step.observations.is_empty());
    assert_eq!(step.thought, "Thought: 2 + 2 = 4");
    assert_eq!(c.trajectory().len(), 3);
    assert_eq!(c.trajectory()[2].role, MessageRole::Assistant);
}

#[test]
fn tool_call_is_recorded_as_action_and_observation() {
    let mut c = coordinator().add_tool(calculator());
    c.start("Calculate 15 times 3").unwrap();
    assert!(matches!(c.begin_step(), Ok(true)));
    let args = "{\"a\":15,\"b\":3,\"operation\":\"multiply\"}";
    let progress =
        c.record_response(answer("Thought: multiply", vec![call("calculate", args)]));
    let awaiting = expect_call(&c, progress);
    assert_eq!(awaiting.call().function.name, "calculate");
    assert_eq!(awaiting.call().function.arguments, args);
    let progress = c.record_tool_output(awaiting, Ok("45".to_string())).unwrap();
    let step = expect_done(&c, progress);
    assert!(!step.is_final);
    assert_eq!(step.actions, vec![format!("calculate({})", args)]);
    assert_eq!(step.observations, vec!["45".to_string()]);
    assert!(step.observations.join(" ").contains("45"));
    let t = c.trajectory();
    assert_eq!(t.len(), 4);
    assert_eq!(t[2].tool_calls.len(), 1);
    assert_eq!(t[3].role, MessageRole::Tool);
    assert_eq!(t[3].content, "45");
}

#[test]
fn unknown_tool_is_refused() {
    let mut c = coordinator().add_tool(calculator());
    c.start("x").unwrap();
    c.begin_step().unwrap();
    let progress = c.record_response(answer("t", vec![call("get_weather", "{}")]));
    let r = c.next_call(progress);
    assert!(matches!(r, Err(OllamaError::ToolCallError(ToolCallError::UnknownToolName))));
}

#[test]
fn failing_tool_passes_its_error_on() {
    let mut c = coordinator().add_tool(calculator());
    c.start("x").unwrap();
    c.begin_step().unwrap();
    let progress = c.record_response(answer("t", vec![call("calculate", "{}")]));
    let awaiting = expect_call(&c, progress);
    let r = c.record_tool_output(awaiting, Err("division by zero".to_string()));
    match r {
        Err(OllamaError::ToolCallError(ToolCallError::InternalToolError(m))) => {
            assert_eq!(m, "division by zero")
        }
        other => panic!("unexpected {:?}", other),
    }
    assert_eq!(c.trajectory().len(), 3);
}

#[test]
fn action_description_is_name_and_arguments() {
    assert_eq!(action_description(&call("calculate", "{\"a\":1}")), "calculate({\"a\":1})");
    assert_eq!(action_description(&call("f", "")), "f()");
}

#[test]
fn format_applies_without_tools() {
    let mut c = coordinator().format(FormatType::Json);
    c.start("x").unwrap();
    assert!(matches!(c.request().format, Some(FormatType::Json)));
}

#[test]
fn format_waits_for_tool_results_when_tools_exist() {
    let mut c = coordinator().add_tool(calculator()).format(FormatType::Json);
    c.start("x").unwrap();
    c.begin_step().unwrap();
    assert!(c.request().format.is_none());
    let progress = c.record_response(answer("t", vec![call("calculate", "{}")]));
    assert!(c.request().format.is_none());
    let awaiting = expect_call(&c, progress);
    let _ = c.record_tool_output(awaiting, Ok("45".to_string())).unwrap();
    assert!(matches!(c.request().format, Some(FormatType::Json)));
}

#[test]
fn format_unset_is_never_sent() {
    let mut c = coordinator();
    c.start("x").unwrap();
    assert!(c.request().format.is_none());
}

#[test]
fn request_carries_settings() {
    let mut options = ModelOptions::default();
    options.temperature = Some(0.5f32.to_bits());
    options.seed = Some(42);
    let c = coordinator()
        .options(options)
        .keep_alive(KeepAlive::Until { time: 5, unit: TimeUnit::Minutes })
        .think(true)
        .debug(true)
        .add_tool(calculator());
    assert!(c.debug_enabled());
    let r = c.request();
    assert_eq!(r.options.temperature, Some(0.5f32.to_bits()));
    assert_eq!(r.options.seed, Some(42));
    assert_eq!(r.keep_alive, Some(KeepAlive::Until { time: 5, unit: TimeUnit::Minutes }));
    assert_eq!(r.think, Some(true));
    assert_eq!(r.tools.len(), 1);
    assert_eq!(r.tools[0].function.name, "calculate");
}

#[test]
fn collecting_stops_after_a_final_step() {
    let mut steps: Vec<Step> = Vec::new();
    assert!(collect_step(&mut steps, Step::new(1)));
    assert!(!collect_step(&mut steps, Step::new(2).mark_final()));
    assert_eq!(steps.len(), 2);
    assert!(steps.last().unwrap().is_final);
}

#[test]
fn step_numbers_count_up() {
    let mut c = coordinator().add_tool(calculator());
    c.start("x").unwrap();
    c.begin_step().unwrap();
    let progress = c.record_response(answer("a", vec![call("calculate", "{}")]));
    let awaiting = expect_call(&c, progress);
    let progress = c.record_tool_output(awaiting, Ok("1".to_string())).unwrap();
    let first = expect_done(&c, progress);
    assert_eq!(first.step_number, 1);
    c.begin_step().unwrap();
    let progress = c_response(&mut c, "b");
    let second = expect_done(&c, progress);
    assert_eq!(second.step_number, 2);
    assert!(second.is_final);
}

#[test]
fn tool_calls_run_in_order_and_a_second_start_adds_nothing() {
    let mut c = coordinator()
        .add_tool(calculator())
        .add_tool(ToolInfo::new("get_temperature".to_string(), "t".to_string(), "{}".to_string()));
    c.start("q").unwrap();
    c.start("again").unwrap();
    c.begin_step().unwrap();
    let progress = c.record_response(answer(
        "t",
        vec![call("get_temperature", "{\"unit\":\"c\"}"), call("calculate", "{}")],
    ));
    let first = expect_call(&c, progress);
    assert_eq!(first.call().function.name, "get_temperature");
    let progress = c.record_tool_output(first, Ok("21.6".to_string())).unwrap();
    let second = expect_call(&c, progress);
    assert_eq!(second.call().function.name, "calculate");
    let progress = c.record_tool_output(second, Ok("31.6".to_string())).unwrap();
    let step = expect_done(&c, progress);
    assert_eq!(step.actions, vec![
        "get_temperature({\"unit\":\"c\"})".to_string(),
        "calculate({})".to_string(),
    ]);
    assert_eq!(step.observations, vec!["21.6".to_string(), "31.6".to_string()]);
    let t = c.trajectory();
    let roles: Vec<MessageRole> = t.iter().map(|m| m.role).collect();
    assert_eq!(roles, vec![
        MessageRole::System,
        MessageRole::User,
        MessageRole::Assistant,
        MessageRole::Tool,
        MessageRole::Tool,
    ]);
    assert_eq!(c.current_step(), 1);
}

#[test]
fn collecting_a_run_stops_at_the_first_final_step() {
    let mut c = coordinator().add_tool(calculator()).max_iterations(5);
    c.start("Calculate 15 times 3").unwrap();
    let answers = vec![
        answer("use tool", vec![call("calculate", "{}")]),
        answer("The answer is 45", vec![]),
        answer("never asked", vec![]),
    ];
    let mut steps: Vec<Step> = Vec::new();
    for a in answers {
        assert!(matches!(c.begin_step(), Ok(true)));
        let mut progress = c.record_response(a);
        let step = loop {
            match c.next_call(progress).unwrap() {
                Turn::Done(s) => break s,
                Turn::Call(aw) => progress = c.record_tool_output(aw, Ok("45".to_string())).unwrap(),
            }
        };
        if !collect_step(&mut steps, step) {
            break;
        }
    }
    assert_eq!(steps.len(), 2);
    assert_eq!(steps[0].step_number, 1);
    assert_eq!(steps[1].step_number, 2);
    assert!(!steps[0].is_final);
    assert!(steps[1].is_final);
    assert!(steps.iter().any(|s| s.observations.iter().any(|o| o.contains("45"))));
    assert_eq!(c.current_step(), 2);
}
