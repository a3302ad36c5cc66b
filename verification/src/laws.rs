use vstd::prelude::*;

use crate::coordinator::{
    format_applies, DEFAULT_SYSTEM_PROMPT, action_text, after_output, begin_outcome, response_progress, response_step, spec_begin,
    spec_record_output, spec_record_response, spec_start, system_text, take_call, BeginOutcome,
    CoordinatorView, StepProgressView,
};
use crate::message::{plain_message, ChatMessageView, MessageRole, ToolCallView};
use crate::options::{FormatType, KeepAlive, ModelOptions, ToolInfo};
use crate::step::StepView;

verus! {

/// The state after asking for `n` steps in a row.
pub open spec fn begin_many(v: CoordinatorView, n: nat) -> CoordinatorView
    decreases n,
{
    if n == 0 {
        v
    } else {
        begin_many(spec_begin(v), (n - 1) as nat)
    }
}

/// How many of `n` requests for a step in a row are granted.
pub open spec fn granted(v: CoordinatorView, n: nat) -> nat
    decreases n,
{
    if n == 0 {
        0
    } else {
        (if begin_outcome(v) is Started {
            1nat
        } else {
            0nat
        }) + granted(spec_begin(v), (n - 1) as nat)
    }
}

/// The steps still allowed: none before `start`, and otherwise the limit
/// less the steps already taken.
pub open spec fn steps_left(v: CoordinatorView) -> nat {
    if !v.is_initialized || v.current_step >= v.max_iterations {
        0
    } else {
        (v.max_iterations - v.current_step) as nat
    }
}

/// The state and the step in progress after the tools of a step are run in
/// the order `next_call` hands them out, each handing-out followed by the
/// tool's output: each call joins the actions, its output the observations,
/// and a tool message with the output the conversation.
pub open spec fn run_tools(v: CoordinatorView, p: StepProgressView, outputs: Seq<Seq<char>>) -> (
    CoordinatorView,
    StepProgressView,
)
    decreases p.pending.len(),
{
    if p.pending.len() == 0 || outputs.len() == 0 {
        (v, p)
    } else {
        run_tools(
            spec_record_output(v, outputs[0]),
            after_output(take_call(p), outputs[0]),
            outputs.drop_first(),
        )
    }
}

/// The tool messages that carry the given outputs.
pub open spec fn tool_messages(outputs: Seq<Seq<char>>) -> Seq<ChatMessageView> {
    outputs.map_values(|o: Seq<char>| plain_message(MessageRole::Tool, o))
}

/// Starting twice is starting once: a second `start`, with any prompt,
/// changes nothing.
pub proof fn lemma_start_idempotent(v: CoordinatorView, first: Seq<char>, second: Seq<char>)
    ensures
        spec_start(spec_start(v, first), second) == spec_start(v, first),
{
}

/// Starting a coordinator that has not started appends the system prompt
/// (the one set, or the default one) and then the user's prompt to the
/// conversation, marks it started, and leaves the step count and every
/// setting as they were.
pub proof fn lemma_start_fresh(v: CoordinatorView, prompt: Seq<char>)
    requires
        !v.is_initialized,
    ensures
        spec_start(v, prompt).trajectory == v.trajectory + seq![
            plain_message(MessageRole::System, system_text(v)),
            plain_message(MessageRole::User, prompt),
        ],
        spec_start(v, prompt).is_initialized,
        spec_start(v, prompt).current_step == v.current_step,
        spec_start(v, prompt) == (CoordinatorView {
            trajectory: spec_start(v, prompt).trajectory,
            is_initialized: true,
            ..v
        }),
{
    assert(spec_start(v, prompt).trajectory =~= v.trajectory + seq![
        plain_message(MessageRole::System, system_text(v)),
        plain_message(MessageRole::User, prompt),
    ]);
}

/// The step budget: of any number of requests for a step in a row, as many
/// are granted as steps are left and no more, each granted one counts one
/// step, and nothing else changes.
pub proof fn lemma_step_budget(v: CoordinatorView, n: nat)
    ensures
        granted(v, n) == (if n < steps_left(v) {
            n
        } else {
            steps_left(v)
        }),
        begin_many(v, n) == (CoordinatorView {
            current_step: v.current_step + granted(v, n),
            ..v
        }),
    decreases n,
{
    if n > 0 {
        lemma_step_budget(spec_begin(v), (n - 1) as nat);
    }
}

/// A run that starts from a fresh coordinator and asks for steps until none
/// is granted takes exactly as many steps as the limit allows.
pub proof fn lemma_run_takes_limit(v: CoordinatorView, prompt: Seq<char>, n: nat)
    requires
        !v.is_initialized,
        v.current_step == 0,
    ensures
        granted(spec_start(v, prompt), n) == (if n < v.max_iterations {
            n
        } else {
            v.max_iterations
        }),
        granted(spec_start(v, prompt), n) <= v.max_iterations,
{
    lemma_step_budget(spec_start(v, prompt), n);
}

/// Steps are numbered from one up, in the order they are granted: the step
/// made of the model's answer after the `k`-th granted request of a fresh run
/// has the number `k`.
pub proof fn lemma_step_numbers(
    v: CoordinatorView,
    prompt: Seq<char>,
    k: nat,
    m: ChatMessageView,
)
    requires
        !v.is_initialized,
        v.current_step == 0,
        1 <= k <= v.max_iterations,
    ensures
        begin_outcome(begin_many(spec_start(v, prompt), (k - 1) as nat)) is Started,
        response_step(begin_many(spec_start(v, prompt), k), m).step_number == k,
{
    lemma_step_budget(spec_start(v, prompt), (k - 1) as nat);
    lemma_step_budget(spec_start(v, prompt), k);
}

/// Running the tools of a step, with one output for each pending call,
/// records each call as an action and each output as an observation, in
/// order, leaves no call pending, and adds one tool message per output to the
/// conversation; the rest of the step and of the coordinator stays as it was.
pub proof fn lemma_run_tools(v: CoordinatorView, p: StepProgressView, outputs: Seq<Seq<char>>)
    requires
        p.pending.len() == outputs.len(),
    ensures
        run_tools(v, p, outputs).1 == (StepProgressView {
            step: StepView {
                actions: p.step.actions + p.pending.map_values(|c: ToolCallView| action_text(c)),
                observations: p.step.observations + outputs,
                ..p.step
            },
            pending: Seq::empty(),
        }),
        run_tools(v, p, outputs).0 == (CoordinatorView {
            trajectory: v.trajectory + tool_messages(outputs),
            ..v
        }),
    decreases p.pending.len(),
{
    if p.pending.len() == 0 {
        assert(p.pending.map_values(|c: ToolCallView| action_text(c)) =~= Seq::<Seq<char>>::empty());
        assert(p.step.actions + p.pending.map_values(|c: ToolCallView| action_text(c))
            =~= p.step.actions);
        assert(p.step.observations + outputs =~= p.step.observations);
        assert(v.trajectory + tool_messages(outputs) =~= v.trajectory);
        assert(p.pending =~= Seq::<ToolCallView>::empty());
    } else {
        let v1 = spec_record_output(v, outputs[0]);
        let p1 = after_output(take_call(p), outputs[0]);
        lemma_run_tools(v1, p1, outputs.drop_first());
        assert(p1.step.actions + p1.pending.map_values(|c: ToolCallView| action_text(c))
            =~= p.step.actions + p.pending.map_values(|c: ToolCallView| action_text(c)));
        assert(p1.step.observations + outputs.drop_first() =~= p.step.observations + outputs);
        assert(v1.trajectory + tool_messages(outputs.drop_first()) =~= v.trajectory
            + tool_messages(outputs));
    }
}

/// A completed step: once the model's answer has arrived and every tool it
/// called has returned, no call is left, the step is final exactly when no
/// tool was called, it holds one action and one observation per call, a final
/// step holds none, and the conversation has grown by the answer and then one
/// tool message per output.
pub proof fn lemma_completed_step(v: CoordinatorView, m: ChatMessageView, outputs: Seq<Seq<char>>)
    requires
        outputs.len() == m.tool_calls.len(),
    ensures
        ({
            let done = run_tools(spec_record_response(v, m), response_progress(v, m), outputs);
            &&& done.1.pending.len() == 0
            &&& done.1.step.is_final <==> m.tool_calls.len() == 0
            &&& done.1.step.actions.len() == m.tool_calls.len()
            &&& done.1.step.observations == outputs
            &&& done.1.step.actions.len() == done.1.step.observations.len()
            &&& done.1.step.thought == m.content
            &&& done.1.step.step_number == v.current_step
            &&& done.0 == (CoordinatorView {
                trajectory: v.trajectory.push(m) + tool_messages(outputs),
                ..v
            })
        }),
{
    lemma_run_tools(spec_record_response(v, m), response_progress(v, m), outputs);
    assert(Seq::<Seq<char>>::empty() + outputs =~= outputs);
}


/// A call of the coordinator's public functions, as it acts on the state.
pub enum Op {
    AddTool(ToolInfo),
    SystemPrompt(Seq<char>),
    Format(FormatType),
    Options(ModelOptions),
    Debug(bool),
    KeepAlive(KeepAlive),
    MaxIterations(nat),
    Think(bool),
    Start(Seq<char>),
    /// `begin_step`.
    Begin,
    /// `record_response` with the model's answer.
    Response(ChatMessageView),
    /// `record_tool_output` with a tool's output.
    ToolOutput(Seq<char>),
    /// A call that leaves the state as it is: a getter, `request`,
    /// `has_tool`, `next_call`, or `record_tool_output` with a failure.
    Keep,
}

/// The state after one call, as the called function's contract gives it.
pub open spec fn apply(v: CoordinatorView, op: Op) -> CoordinatorView {
    match op {
        Op::AddTool(info) => CoordinatorView { tools: v.tools.push(info), ..v },
        Op::SystemPrompt(p) => CoordinatorView { system_prompt: Some(p), ..v },
        Op::Format(f) => CoordinatorView { format: Some(f), ..v },
        Op::Options(o) => CoordinatorView { options: o, ..v },
        Op::Debug(d) => CoordinatorView { debug: d, ..v },
        Op::KeepAlive(k) => CoordinatorView { keep_alive: Some(k), ..v },
        Op::MaxIterations(n) => CoordinatorView { max_iterations: n, ..v },
        Op::Think(t) => CoordinatorView { think: Some(t), ..v },
        Op::Start(p) => spec_start(v, p),
        Op::Begin => spec_begin(v),
        Op::Response(m) => spec_record_response(v, m),
        Op::ToolOutput(o) => spec_record_output(v, o),
        Op::Keep => v,
    }
}

/// The state after a sequence of calls.
pub open spec fn run(v: CoordinatorView, ops: Seq<Op>) -> CoordinatorView
    decreases ops.len(),
{
    if ops.len() == 0 {
        v
    } else {
        apply(run(v, ops.drop_last()), ops.last())
    }
}

/// The messages one call adds to the conversation: the system prompt and
/// the user's prompt for a `start` that starts the run, the model's answer,
/// or a tool message with a tool's output; nothing for any other call.
pub open spec fn op_messages(v: CoordinatorView, op: Op) -> Seq<ChatMessageView> {
    match op {
        Op::Start(p) => if v.is_initialized {
            Seq::empty()
        } else {
            seq![plain_message(MessageRole::System, system_text(v)), plain_message(MessageRole::User, p)]
        },
        Op::Response(m) => seq![m],
        Op::ToolOutput(o) => seq![plain_message(MessageRole::Tool, o)],
        _ => Seq::empty(),
    }
}

/// The messages a sequence of calls adds to the conversation, in call order.
pub open spec fn added(v: CoordinatorView, ops: Seq<Op>) -> Seq<ChatMessageView>
    decreases ops.len(),
{
    if ops.len() == 0 {
        Seq::empty()
    } else {
        added(v, ops.drop_last()) + op_messages(run(v, ops.drop_last()), ops.last())
    }
}

/// How many of the calls were `begin_step` calls that began a step.
pub open spec fn granted_in(v: CoordinatorView, ops: Seq<Op>) -> nat
    decreases ops.len(),
{
    if ops.len() == 0 {
        0
    } else {
        granted_in(v, ops.drop_last()) + (if ops.last() is Begin && begin_outcome(
            run(v, ops.drop_last()),
        ) is Started {
            1nat
        } else {
            0nat
        })
    }
}

/// Whether the run had started before the calls, or one of them is a `start`.
pub open spec fn started(v: CoordinatorView, ops: Seq<Op>) -> bool {
    v.is_initialized || exists|i: int| 0 <= i < ops.len() && #[trigger] ops[i] is Start
}

/// The conversation after any sequence of calls is the conversation before
/// them followed, in call order, by exactly the messages the calls add: the
/// system and user prompts of the `start` that starts the run, the model's
/// answers, and one tool message per tool output. No other call adds
/// anything, and a tool call's action description never enters it.
pub proof fn lemma_run_conversation(v: CoordinatorView, ops: Seq<Op>)
    ensures
        run(v, ops).trajectory == v.trajectory + added(v, ops),
    decreases ops.len(),
{
    if ops.len() == 0 {
        assert(v.trajectory + added(v, ops) =~= v.trajectory);
    } else {
        let prev = ops.drop_last();
        lemma_run_conversation(v, prev);
        let s = run(v, prev);
        assert(apply(s, ops.last()).trajectory =~= s.trajectory + op_messages(s, ops.last()));
        assert(v.trajectory + added(v, ops) =~= v.trajectory + added(v, prev) + op_messages(
            s,
            ops.last(),
        ));
    }
}

/// The step count after any sequence of calls is the count before them plus
/// the number of `begin_step` calls that began a step; no other call changes it.
pub proof fn lemma_run_step_count(v: CoordinatorView, ops: Seq<Op>)
    ensures
        run(v, ops).current_step == v.current_step + granted_in(v, ops),
    decreases ops.len(),
{
    if ops.len() > 0 {
        lemma_run_step_count(v, ops.drop_last());
    }
}

/// The run is started after a sequence of calls exactly when it was started
/// before or one of the calls is a `start`: only `start` sets the flag and no
/// call clears it.
pub proof fn lemma_run_started(v: CoordinatorView, ops: Seq<Op>)
    ensures
        run(v, ops).is_initialized == started(v, ops),
    decreases ops.len(),
{
    if ops.len() > 0 {
        let prev = ops.drop_last();
        lemma_run_started(v, prev);
        if started(v, prev) && !v.is_initialized {
            let i = choose|i: int| 0 <= i < prev.len() && #[trigger] prev[i] is Start;
            assert(ops[i] is Start);
        }
        if started(v, ops) && !v.is_initialized && !(ops.last() is Start) {
            let i = choose|i: int| 0 <= i < ops.len() && #[trigger] ops[i] is Start;
            assert(prev[i] is Start);
        }
        if ops.last() is Start {
            assert(ops[ops.len() - 1] is Start);
        }
    }
}

/// A request for a step within a sequence of calls is refused exactly when
/// the run has not started by then; and a `start` after the first adds no
/// message.
pub proof fn lemma_run_refusals(v: CoordinatorView, ops: Seq<Op>, i: int)
    requires
        0 <= i < ops.len(),
    ensures
        ops[i] is Begin ==> (begin_outcome(run(v, ops.take(i))) is NotInitialized <==> !started(
            v,
            ops.take(i),
        )),
        ops[i] is Start && started(v, ops.take(i)) ==> op_messages(run(v, ops.take(i)), ops[i])
            == Seq::<ChatMessageView>::empty(),
{
    lemma_run_started(v, ops.take(i));
}

/// What collecting steps gives: from the state `v`, steps are asked for one
/// after another; each granted step takes the model's answer and its tools'
/// outputs from `answers`, in order; collecting stops after a final step, when
/// no step is granted, or when the answers run out.
pub open spec fn collect(v: CoordinatorView, answers: Seq<(ChatMessageView, Seq<Seq<char>>)>) -> (
    CoordinatorView,
    Seq<StepView>,
)
    decreases answers.len(),
{
    if !(begin_outcome(v) is Started) || answers.len() == 0 {
        (v, Seq::empty())
    } else {
        let v1 = spec_begin(v);
        let done = run_tools(
            spec_record_response(v1, answers[0].0),
            response_progress(v1, answers[0].0),
            answers[0].1,
        );
        if done.1.step.is_final {
            (done.0, seq![done.1.step])
        } else {
            let rest = collect(done.0, answers.drop_first());
            (rest.0, seq![done.1.step] + rest.1)
        }
    }
}

/// Collecting steps, with one output for each tool call of each answer,
/// yields steps numbered one after another from the next step on, each final
/// exactly when its answer called no tool, none final but the last; at most
/// as many as steps are left and as answers are given; and it stops only
/// after the first final step, at the step limit, or when the answers run
/// out. The step count grows by the number of steps collected.
pub proof fn lemma_collect(v: CoordinatorView, answers: Seq<(ChatMessageView, Seq<Seq<char>>)>)
    requires
        forall|i: int| 0 <= i < answers.len() ==> (#[trigger] answers[i]).1.len() == answers[i].0.tool_calls.len(),
    ensures
        ({
            let (w, steps) = collect(v, answers);
            &&& steps.len() <= steps_left(v)
            &&& steps.len() <= answers.len()
            &&& forall|i: int| 0 <= i < steps.len() ==> (#[trigger] steps[i]).step_number == v.current_step + i + 1
            &&& forall|i: int| 0 <= i < steps.len() ==> ((#[trigger] steps[i]).is_final <==> answers[i].0.tool_calls.len() == 0)
            &&& forall|i: int| 0 <= i < steps.len() - 1 ==> !(#[trigger] steps[i]).is_final
            &&& (steps.len() == answers.len() || steps.len() == steps_left(v) || steps.last().is_final)
            &&& w.current_step == v.current_step + steps.len()
            &&& w.max_iterations == v.max_iterations
            &&& w.is_initialized == v.is_initialized
        }),
    decreases answers.len(),
{
    if begin_outcome(v) is Started && answers.len() > 0 {
        let v1 = spec_begin(v);
        let m = answers[0].0;
        let outs = answers[0].1;
        assert(outs.len() == m.tool_calls.len()) by {
            assert(answers[0].1.len() == answers[0].0.tool_calls.len());
        }
        lemma_completed_step(v1, m, outs);
        let done = run_tools(spec_record_response(v1, m), response_progress(v1, m), outs);
        if !done.1.step.is_final {
            let rest_answers = answers.drop_first();
            assert forall|i: int| 0 <= i < rest_answers.len() implies (#[trigger] rest_answers[i]).1.len()
                == rest_answers[i].0.tool_calls.len() by {
                assert(rest_answers[i] == answers[i + 1]);
            }
            lemma_collect(done.0, rest_answers);
            let rest = collect(done.0, rest_answers);
            let steps = seq![done.1.step] + rest.1;
            assert forall|i: int| 0 <= i < steps.len() implies (#[trigger] steps[i]).step_number
                == v.current_step + i + 1 && (steps[i].is_final <==> answers[i].0.tool_calls.len()
                == 0) by {
                if i > 0 {
                    assert(steps[i] == rest.1[i - 1]);
                    assert(rest_answers[i - 1] == answers[i]);
                }
            }
            assert forall|i: int| 0 <= i < steps.len() - 1 implies !(#[trigger] steps[i]).is_final by {
                if i > 0 {
                    assert(steps[i] == rest.1[i - 1]);
                }
            }
            if rest.1.len() > 0 {
                assert(steps.last() == rest.1.last());
            }
        }
    }
}


/// The calls `next_call` hands out, one after another, while a step's tools
/// run and each returns its output.
pub open spec fn handed_out(p: StepProgressView, outputs: Seq<Seq<char>>) -> Seq<ToolCallView>
    decreases p.pending.len(),
{
    if p.pending.len() == 0 || outputs.len() == 0 {
        Seq::empty()
    } else {
        seq![take_call(p).call] + handed_out(after_output(take_call(p), outputs[0]), outputs.drop_first())
    }
}

/// The step in progress after the model's answer holds the answer's tool
/// calls, each with its own name and arguments, in the order the model sent
/// them; the step is numbered by the current step, its thought is the
/// answer's text, it has no action or observation yet, and it is final
/// exactly when the answer calls no tool.
pub proof fn lemma_response_queues_calls(v: CoordinatorView, m: ChatMessageView)
    ensures
        response_progress(v, m).pending == m.tool_calls,
        forall|i: int| 0 <= i < m.tool_calls.len() ==> (#[trigger] response_progress(v, m).pending[i]).name
            == m.tool_calls[i].name && response_progress(v, m).pending[i].arguments
            == m.tool_calls[i].arguments,
        response_progress(v, m).step.thought == m.content,
        response_progress(v, m).step.step_number == v.current_step,
        response_progress(v, m).step.actions.len() == 0,
        response_progress(v, m).step.observations.len() == 0,
        response_progress(v, m).step.is_final <==> m.tool_calls.len() == 0,
{
}

/// The call handed out to run is the first pending call, name and arguments
/// both; the others stay pending in order, and the call's text `name(arguments)`
/// joins the step's actions.
pub proof fn lemma_next_call_hands_out_first(p: StepProgressView)
    requires
        p.pending.len() > 0,
    ensures
        take_call(p).call == p.pending[0],
        take_call(p).call.name == p.pending[0].name,
        take_call(p).call.arguments == p.pending[0].arguments,
        take_call(p).pending == p.pending.drop_first(),
        take_call(p).step.actions == p.step.actions.push(
            p.pending[0].name + "("@ + p.pending[0].arguments + ")"@,
        ),
        take_call(p).step.observations == p.step.observations,
{
}

/// Running a step's tools, with one output per call, hands out exactly the
/// pending calls, in order, each with its own arguments.
pub proof fn lemma_handed_out_in_order(p: StepProgressView, outputs: Seq<Seq<char>>)
    requires
        p.pending.len() == outputs.len(),
    ensures
        handed_out(p, outputs) == p.pending,
    decreases p.pending.len(),
{
    if p.pending.len() > 0 {
        let q = after_output(take_call(p), outputs[0]);
        lemma_handed_out_in_order(q, outputs.drop_first());
        assert(q.pending == p.pending.drop_first());
        assert(seq![take_call(p).call] + handed_out(q, outputs.drop_first()) =~= p.pending);
    }
}

/// The tools of a step are run as the model sent them: the calls handed out
/// are exactly the answer's tool calls, in order, each with its own name and
/// arguments, and the completed step's actions are, in the same order, each
/// call's name, `(`, its arguments, and `)`.
pub proof fn lemma_calls_run_as_sent(v: CoordinatorView, m: ChatMessageView, outputs: Seq<Seq<char>>)
    requires
        outputs.len() == m.tool_calls.len(),
    ensures
        handed_out(response_progress(v, m), outputs) == m.tool_calls,
        ({
            let done = run_tools(spec_record_response(v, m), response_progress(v, m), outputs);
            &&& done.1.step.actions.len() == m.tool_calls.len()
            &&& forall|i: int| 0 <= i < m.tool_calls.len() ==> #[trigger] done.1.step.actions[i]
                == m.tool_calls[i].name + "("@ + m.tool_calls[i].arguments + ")"@
            &&& done.1.step.observations == outputs
        }),
{
    lemma_handed_out_in_order(response_progress(v, m), outputs);
    lemma_completed_step(v, m, outputs);
    lemma_run_tools(spec_record_response(v, m), response_progress(v, m), outputs);
    let done = run_tools(spec_record_response(v, m), response_progress(v, m), outputs);
    assert forall|i: int| 0 <= i < m.tool_calls.len() implies #[trigger] done.1.step.actions[i]
        == m.tool_calls[i].name + "("@ + m.tool_calls[i].arguments + ")"@ by {
        assert(done.1.step.actions == Seq::<Seq<char>>::empty() + m.tool_calls.map_values(
            |c: ToolCallView| action_text(c),
        ));
        assert(done.1.step.actions[i] == action_text(m.tool_calls[i]));
    }
}

/// A call's action text is its name, then `(`, then its arguments exactly as
/// sent, then `)`.
pub proof fn lemma_action_text_parts(c: ToolCallView)
    ensures
        action_text(c).len() == c.name.len() + c.arguments.len() + 2,
        action_text(c).subrange(0, c.name.len() as int) == c.name,
        action_text(c)[c.name.len() as int] == '(',
        action_text(c).subrange(c.name.len() + 1int, c.name.len() + 1int + c.arguments.len()) == c.arguments,
        action_text(c)[action_text(c).len() - 1] == ')',
{
    reveal_strlit("(");
    reveal_strlit(")");
    let t = action_text(c);
    assert(t =~= c.name + seq!['('] + c.arguments + seq![')']);
    assert(t.subrange(0, c.name.len() as int) =~= c.name);
    assert(t.subrange(c.name.len() + 1int, c.name.len() + 1int + c.arguments.len()) =~= c.arguments);
}

/// Two calls of the same tool have the same action text only when their
/// arguments are the same: no part of the arguments is dropped or changed.
pub proof fn lemma_action_text_keeps_arguments(c: ToolCallView, d: ToolCallView)
    requires
        c.name == d.name,
        action_text(c) == action_text(d),
    ensures
        c.arguments == d.arguments,
{
    lemma_action_text_parts(c);
    lemma_action_text_parts(d);
}

/// Right after a tool's output joins the conversation, the answer format,
/// when one is set, is asked for, whatever came before.
pub proof fn lemma_format_after_tool_output(v: CoordinatorView, output: Seq<char>)
    requires
        v.format is Some,
    ensures
        format_applies(spec_record_output(v, output)),
{
}

/// With tools offered and a format set, the format is asked for whenever the
/// conversation ends with a tool message, whatever precedes it, and not when
/// it ends otherwise or is empty.
pub proof fn lemma_format_with_tools(v: CoordinatorView)
    requires
        v.format is Some,
        v.tools.len() > 0,
    ensures
        format_applies(v) <==> (v.trajectory.len() > 0 && v.trajectory[v.trajectory.len() - 1].role
            == MessageRole::Tool),
{
}

/// Without tools, the format is asked for exactly when one is set; and a
/// format that is not set is never asked for.
pub proof fn lemma_format_without_tools(v: CoordinatorView)
    ensures
        v.tools.len() == 0 ==> (format_applies(v) <==> v.format is Some),
        v.format is None ==> !format_applies(v),
{
}

/// Starting a coordinator that has not started sends the whole system prompt
/// that was set, character for character, as its first new message, and the
/// user's prompt right after it.
pub proof fn lemma_start_sends_custom_prompt(v: CoordinatorView, p: Seq<char>, prompt: Seq<char>)
    requires
        !v.is_initialized,
    ensures
        ({
            let w = spec_start(apply(v, Op::SystemPrompt(p)), prompt);
            &&& w.trajectory.len() == v.trajectory.len() + 2
            &&& w.trajectory[v.trajectory.len() as int].role == MessageRole::System
            &&& w.trajectory[v.trajectory.len() as int].content == p
            &&& w.trajectory[v.trajectory.len() + 1int].role == MessageRole::User
            &&& w.trajectory[v.trajectory.len() + 1int].content == prompt
        }),
{
}

/// Starting a coordinator that has not started and has no system prompt set
/// sends the default system prompt, then the user's prompt.
pub proof fn lemma_start_sends_default_prompt(v: CoordinatorView, prompt: Seq<char>)
    requires
        !v.is_initialized,
        v.system_prompt is None,
    ensures
        spec_start(v, prompt).trajectory[v.trajectory.len() as int].content == DEFAULT_SYSTEM_PROMPT@,
        spec_start(v, prompt).trajectory[v.trajectory.len() as int].role == MessageRole::System,
        spec_start(v, prompt).trajectory[v.trajectory.len() + 1int].content == prompt,
{
}

/// A tool's output joins the conversation as one tool message whose text is
/// the output exactly, and the model's answer joins it as it came; nothing
/// else of the state changes.
pub proof fn lemma_messages_join_as_given(v: CoordinatorView, m: ChatMessageView, output: Seq<char>)
    ensures
        spec_record_output(v, output).trajectory.len() == v.trajectory.len() + 1,
        spec_record_output(v, output).trajectory[v.trajectory.len() as int].role == MessageRole::Tool,
        spec_record_output(v, output).trajectory[v.trajectory.len() as int].content == output,
        spec_record_output(v, output).trajectory[v.trajectory.len() as int].tool_calls.len() == 0,
        spec_record_output(v, output).trajectory.take(v.trajectory.len() as int) == v.trajectory,
        spec_record_output(v, output) == (CoordinatorView {
            trajectory: spec_record_output(v, output).trajectory,
            ..v
        }),
        spec_record_response(v, m).trajectory == v.trajectory.push(m),
        spec_record_response(v, m) == (CoordinatorView {
            trajectory: spec_record_response(v, m).trajectory,
            ..v
        }),
{
    assert(spec_record_output(v, output).trajectory.take(v.trajectory.len() as int) =~= v.trajectory);
}

} // verus!
