//! The execution pipeline: one command, from its text to the text that the
//! host reads back.
//!
//! A command is parsed, the name of the last-result binding is interned, the
//! expression is evaluated, the value is printed at depth 0 and then bound to
//! the last-result name with redefinition allowed. A parse failure ends the
//! command at once, and an evaluation failure ends it after the evaluation,
//! each with a marked diagnostic in place of the printed value.

use vstd::prelude::*;
use crate::interpreter::{Misuse, Reply, Request, Text};

verus! {

/// The name of the binding that always holds the last command's value.
pub open spec fn last_name() -> Text {
    ":last"@
}

/// What a diagnostic of a parse failure begins with.
pub open spec fn parse_marker() -> Text {
    "Parse error: "@
}

/// What a diagnostic of an evaluation failure begins with.
pub open spec fn evaluation_marker() -> Text {
    "Evaluation error: "@
}

/// Where a command stands: which reply it is waiting for, and what it keeps
/// until then.
pub enum Exec<T, Expr, Val, Sym> {
    /// The command text is being parsed.
    AwaitParse,
    /// The last-result name is being interned; the parsed expression waits.
    AwaitIntern { expr: Expr },
    /// The expression is being evaluated.
    AwaitEvaluate { last: Sym },
    /// The value is being printed.
    AwaitPrint { last: Sym, value: Val },
    /// The value is being bound to the last-result name.
    AwaitBind { text: T },
    /// The result text has been handed out.
    Done,
}

/// What happens next in a command: another request to the interpreter core,
/// or the text that goes back to the host.
pub enum Turn<T, Expr, Val, Sym> {
    Ask(Request<T, Expr, Val, Sym>),
    Return(T),
}

impl<Expr, Val, Sym> View for Exec<String, Expr, Val, Sym> {
    type V = Exec<Text, Expr, Val, Sym>;

    open spec fn view(&self) -> Exec<Text, Expr, Val, Sym> {
        match *self {
            Exec::AwaitParse => Exec::AwaitParse,
            Exec::AwaitIntern { expr } => Exec::AwaitIntern { expr },
            Exec::AwaitEvaluate { last } => Exec::AwaitEvaluate { last },
            Exec::AwaitPrint { last, value } => Exec::AwaitPrint { last, value },
            Exec::AwaitBind { text } => Exec::AwaitBind { text: text@ },
            Exec::Done => Exec::Done,
        }
    }
}

impl<Expr, Val, Sym> View for Turn<String, Expr, Val, Sym> {
    type V = Turn<Text, Expr, Val, Sym>;

    open spec fn view(&self) -> Turn<Text, Expr, Val, Sym> {
        match *self {
            Turn::Ask(request) => Turn::Ask(request@),
            Turn::Return(text) => Turn::Return(text@),
        }
    }
}

/// The pipeline's transition: the state and turn that follow when `reply`
/// arrives in `state`, or `None` where `state` is not waiting for such a reply.
pub open spec fn step<Expr, Val, Sym>(
    state: Exec<Text, Expr, Val, Sym>,
    reply: Reply<Text, Expr, Val, Sym>,
) -> Option<(Exec<Text, Expr, Val, Sym>, Turn<Text, Expr, Val, Sym>)> {
    match (state, reply) {
        (Exec::AwaitParse, Reply::Parsed(Ok(expr))) => Some(
            (Exec::AwaitIntern { expr }, Turn::Ask(Request::Intern(last_name()))),
        ),
        (Exec::AwaitParse, Reply::Parsed(Err(detail))) => Some(
            (Exec::Done, Turn::Return(parse_marker() + detail)),
        ),
        (Exec::AwaitIntern { expr }, Reply::Interned(last)) => Some(
            (Exec::AwaitEvaluate { last }, Turn::Ask(Request::Evaluate(expr))),
        ),
        (Exec::AwaitEvaluate { last }, Reply::Evaluated(Ok(value))) => Some(
            (Exec::AwaitPrint { last, value }, Turn::Ask(Request::Print { depth: 0 })),
        ),
        (Exec::AwaitEvaluate { .. }, Reply::Evaluated(Err(detail))) => Some(
            (Exec::Done, Turn::Return(evaluation_marker() + detail)),
        ),
        (Exec::AwaitPrint { last, value }, Reply::Printed(text)) => Some(
            (
                Exec::AwaitBind { text },
                Turn::Ask(Request::Bind { symbol: last, value, allow_redefine: true }),
            ),
        ),
        (Exec::AwaitBind { text }, Reply::Bound) => Some((Exec::Done, Turn::Return(text))),
        _ => None,
    }
}

/// The refusal that a reply meets in `state` when `step` has no transition
/// for it.
pub open spec fn refusal<Expr, Val, Sym>(state: Exec<Text, Expr, Val, Sym>) -> Misuse {
    if state is Done {
        Misuse::Finished
    } else {
        Misuse::Unexpected
    }
}

/// Takes a command from the host: the pipeline's first state, and its first
/// request, which is to parse the command's text.
pub fn exec_command<Expr, Val, Sym>(command: &str) -> (begun: (
    Exec<String, Expr, Val, Sym>,
    Turn<String, Expr, Val, Sym>,
))
    ensures
        begun.0@ == Exec::<Text, Expr, Val, Sym>::AwaitParse,
        begun.1@ == Turn::<Text, Expr, Val, Sym>::Ask(Request::Parse(command@)),
{
    (Exec::AwaitParse, Turn::Ask(Request::Parse(String::from_str(command))))
}

/// Advances a command by the interpreter core's reply to the pending request.
///
/// Returns the next state with the next request or the result text, exactly
/// as `step` gives them; a reply that the state is not waiting for is refused.
pub fn exec<Expr, Val, Sym>(
    state: Exec<String, Expr, Val, Sym>,
    reply: Reply<String, Expr, Val, Sym>,
) -> (next: Result<(Exec<String, Expr, Val, Sym>, Turn<String, Expr, Val, Sym>), Misuse>)
    ensures
        match next {
            Ok((after, turn)) => step(state@, reply@) == Some((after@, turn@)),
            Err(misuse) => step(state@, reply@) is None && misuse == refusal(state@),
        },
{
    match (state, reply) {
        (Exec::AwaitParse, Reply::Parsed(Ok(expr))) => Ok(
            (Exec::AwaitIntern { expr }, Turn::Ask(Request::Intern(String::from_str(":last")))),
        ),
        (Exec::AwaitParse, Reply::Parsed(Err(detail))) => {
            let text = String::from_str("Parse error: ").concat(detail.as_str());
            Ok((Exec::Done, Turn::Return(text)))
        },
        (Exec::AwaitIntern { expr }, Reply::Interned(last)) => Ok(
            (Exec::AwaitEvaluate { last }, Turn::Ask(Request::Evaluate(expr))),
        ),
        (Exec::AwaitEvaluate { last }, Reply::Evaluated(Ok(value))) => Ok(
            (Exec::AwaitPrint { last, value }, Turn::Ask(Request::Print { depth: 0 })),
        ),
        (Exec::AwaitEvaluate { .. }, Reply::Evaluated(Err(detail))) => {
            let text = String::from_str("Evaluation error: ").concat(detail.as_str());
            Ok((Exec::Done, Turn::Return(text)))
        },
        (Exec::AwaitPrint { last, value }, Reply::Printed(text)) => Ok(
            (
                Exec::AwaitBind { text },
                Turn::Ask(Request::Bind { symbol: last, value, allow_redefine: true }),
            ),
        ),
        (Exec::AwaitBind { text }, Reply::Bound) => Ok((Exec::Done, Turn::Return(text))),
        (Exec::Done, _) => Err(Misuse::Finished),
        _ => Err(Misuse::Unexpected),
    }
}

/// The value that a command holds while it waits for the value's printed form.
pub fn pending_value<Expr, Val, Sym>(state: &Exec<String, Expr, Val, Sym>) -> (held: Option<&Val>)
    ensures
        match state@ {
            Exec::AwaitPrint { value, .. } => held == Some(&value),
            _ => held is None,
        },
{
    match state {
        Exec::AwaitPrint { value, .. } => Some(value),
        _ => None,
    }
}

/// How many replies a command in `state` can still take before it ends.
pub open spec fn remaining<Expr, Val, Sym>(state: Exec<Text, Expr, Val, Sym>) -> nat {
    match state {
        Exec::AwaitParse => 5,
        Exec::AwaitIntern { .. } => 4,
        Exec::AwaitEvaluate { .. } => 3,
        Exec::AwaitPrint { .. } => 2,
        Exec::AwaitBind { .. } => 1,
        Exec::Done => 0,
    }
}

/// What the interpreter core answers in the course of one command: its parse
/// result, the symbol of the last-result name, its evaluation result and the
/// printed form of the value. The later ones count only where the command
/// gets that far.
pub struct Answers<Expr, Val, Sym> {
    pub parsed: Result<Expr, Text>,
    pub symbol: Sym,
    pub evaluated: Result<Val, Text>,
    pub printed: Text,
}

/// The reply that `request` gets from an interpreter core that answers with
/// `answers`.
pub open spec fn answer<Expr, Val, Sym>(
    answers: Answers<Expr, Val, Sym>,
    request: Request<Text, Expr, Val, Sym>,
) -> Reply<Text, Expr, Val, Sym> {
    match request {
        Request::Parse(_) => Reply::Parsed(answers.parsed),
        Request::Intern(_) => Reply::Interned(answers.symbol),
        Request::Evaluate(_) => Reply::Evaluated(answers.evaluated),
        Request::Print { .. } => Reply::Printed(answers.printed),
        Request::Bind { .. } => Reply::Bound,
    }
}

/// A command run to its end from `state` and `turn` against `answers`: the
/// requests made, in order, and the text returned to the host.
pub open spec fn run<Expr, Val, Sym>(
    state: Exec<Text, Expr, Val, Sym>,
    turn: Turn<Text, Expr, Val, Sym>,
    answers: Answers<Expr, Val, Sym>,
) -> (Seq<Request<Text, Expr, Val, Sym>>, Option<Text>)
    decreases remaining(state),
{
    match turn {
        Turn::Return(text) => (Seq::empty(), Some(text)),
        Turn::Ask(request) => match step(state, answer(answers, request)) {
            Some((after, then)) => if remaining(after) < remaining(state) {
                let rest = run(after, then, answers);
                (seq![request] + rest.0, rest.1)
            } else {
                (seq![request], None)
            },
            None => (seq![request], None),
        },
    }
}

/// The requests that a command with text `command` makes of an interpreter
/// core that answers with `answers`.
pub open spec fn requests_of<Expr, Val, Sym>(
    command: Text,
    answers: Answers<Expr, Val, Sym>,
) -> Seq<Request<Text, Expr, Val, Sym>> {
    match (answers.parsed, answers.evaluated) {
        (Err(_), _) => seq![Request::Parse(command)],
        (Ok(expr), Err(_)) => seq![
            Request::Parse(command),
            Request::Intern(last_name()),
            Request::Evaluate(expr),
        ],
        (Ok(expr), Ok(value)) => seq![
            Request::Parse(command),
            Request::Intern(last_name()),
            Request::Evaluate(expr),
            Request::Print { depth: 0 },
            Request::Bind { symbol: answers.symbol, value, allow_redefine: true },
        ],
    }
}

/// The text that the host reads back from a command to which the interpreter
/// core answers with `answers`.
pub open spec fn result_of<Expr, Val, Sym>(answers: Answers<Expr, Val, Sym>) -> Text {
    match (answers.parsed, answers.evaluated) {
        (Err(detail), _) => parse_marker() + detail,
        (Ok(_), Err(detail)) => evaluation_marker() + detail,
        (Ok(_), Ok(_)) => answers.printed,
    }
}

/// Whether a request can change the session's bindings.
pub open spec fn touches_bindings<Expr, Val, Sym>(request: Request<Text, Expr, Val, Sym>) -> bool {
    request is Evaluate || request is Bind
}

/// Every accepted reply brings a command nearer to its end, and the command
/// returns its text exactly when it ends: no command takes more than five
/// replies.
pub proof fn lemma_step_progresses<Expr, Val, Sym>(
    state: Exec<Text, Expr, Val, Sym>,
    reply: Reply<Text, Expr, Val, Sym>,
)
    requires
        step(state, reply) is Some,
    ensures
        remaining(step(state, reply).unwrap().0) < remaining(state) <= 5,
        step(state, reply).unwrap().1 is Return <==> step(state, reply).unwrap().0 is Done,
{
}

/// A command run from its start makes exactly the requests of `requests_of`,
/// in that order, and returns the text of `result_of`: the printed value
/// where parsing and evaluation succeed, and else the marked diagnostic of
/// the first of the two that failed.
pub proof fn lemma_command_runs_to_result<Expr, Val, Sym>(
    command: Text,
    answers: Answers<Expr, Val, Sym>,
)
    ensures
        run(Exec::AwaitParse, Turn::Ask(Request::Parse(command)), answers) == (
            requests_of(command, answers),
            Some(result_of(answers)),
        ),
{
    reveal_with_fuel(run, 6);
    let ran = run(Exec::AwaitParse, Turn::Ask(Request::Parse(command)), answers);
    assert(ran.0 =~= requests_of(command, answers));
}

/// A command whose text does not parse returns at once: it asks nothing of
/// the interpreter core after the parse, so nothing that can change the
/// session's bindings, and returns the parse diagnostic, which begins with
/// the parse marker.
pub proof fn lemma_parse_failure_is_contained<Expr, Val, Sym>(
    command: Text,
    answers: Answers<Expr, Val, Sym>,
)
    requires
        answers.parsed is Err,
    ensures
        ({
            let ran = run(Exec::AwaitParse, Turn::Ask(Request::Parse(command)), answers);
            &&& ran.0 == seq![Request::<Text, Expr, Val, Sym>::Parse(command)]
            &&& ran.1 == Some(parse_marker() + answers.parsed->Err_0)
            &&& parse_marker().is_prefix_of(ran.1.unwrap())
            &&& forall|i: int| 0 <= i < ran.0.len() ==> !touches_bindings(#[trigger] ran.0[i])
        }),
{
    lemma_command_runs_to_result(command, answers);
    let text = parse_marker() + answers.parsed->Err_0;
    assert(text.subrange(0, parse_marker().len() as int) =~= parse_marker());
}

/// A command whose expression does not evaluate returns the evaluation
/// diagnostic, which begins with the evaluation marker, and neither prints
/// nor rebinds the last-result name.
pub proof fn lemma_evaluation_failure_is_contained<Expr, Val, Sym>(
    command: Text,
    answers: Answers<Expr, Val, Sym>,
)
    requires
        answers.parsed is Ok,
        answers.evaluated is Err,
    ensures
        ({
            let ran = run(Exec::AwaitParse, Turn::Ask(Request::Parse(command)), answers);
            &&& ran.1 == Some(evaluation_marker() + answers.evaluated->Err_0)
            &&& evaluation_marker().is_prefix_of(ran.1.unwrap())
            &&& forall|i: int|
                0 <= i < ran.0.len() ==> !(#[trigger] ran.0[i] is Print) && !(ran.0[i] is Bind)
        }),
{
    lemma_command_runs_to_result(command, answers);
    let text = evaluation_marker() + answers.evaluated->Err_0;
    assert(text.subrange(0, evaluation_marker().len() as int) =~= evaluation_marker());
}

/// A command that parses and evaluates returns the printed form of its value
/// and, as its last request, binds that very value to the symbol interned for
/// the last-result name, with redefinition allowed: the next command finds
/// under that name the value whose text was returned.
pub proof fn lemma_success_rebinds_last<Expr, Val, Sym>(
    command: Text,
    answers: Answers<Expr, Val, Sym>,
)
    requires
        answers.parsed is Ok,
        answers.evaluated is Ok,
    ensures
        ({
            let ran = run(Exec::AwaitParse, Turn::Ask(Request::Parse(command)), answers);
            &&& ran.1 == Some(answers.printed)
            &&& ran.0.len() == 5
            &&& ran.0[1] == Request::<Text, Expr, Val, Sym>::Intern(last_name())
            &&& ran.0[3] == Request::<Text, Expr, Val, Sym>::Print { depth: 0 }
            &&& ran.0[4] == Request::<Text, Expr, Val, Sym>::Bind {
                symbol: answers.symbol,
                value: answers.evaluated->Ok_0,
                allow_redefine: true,
            }
        }),
{
    lemma_command_runs_to_result(command, answers);
}

} // verus!
