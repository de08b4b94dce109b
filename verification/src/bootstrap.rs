//! Bootstrapping a session: an ordered list of definitions is parsed and
//! evaluated against a fresh session, one after the other, before the
//! session is given to the host.
//!
//! Order matters: a definition may use what an earlier one defined. The first
//! definition that fails to parse or to evaluate ends the bootstrap, and the
//! session with it.

use vstd::prelude::*;
use crate::interpreter::{texts, Misuse, Reply, Request, Text};

verus! {

/// The two things done with each definition.
#[derive(Clone, Copy, Debug, PartialEq, Eq, Structural)]
pub enum Stage {
    Parse,
    Evaluate,
}

/// The failure that ended a bootstrap: which definition failed, at which
/// stage, and the interpreter core's rendering of its error.
pub struct BootFailure<T> {
    pub entry: usize,
    pub stage: Stage,
    pub detail: T,
}

/// Where a bootstrap stands.
pub enum Phase<T> {
    /// Definition `entry` is being parsed.
    AwaitParse { entry: usize },
    /// Definition `entry` is being evaluated.
    AwaitEvaluate { entry: usize },
    /// Every definition has been parsed and evaluated.
    Ready,
    /// A definition failed; nothing more is asked.
    Failed(BootFailure<T>),
}

impl View for Phase<String> {
    type V = Phase<Text>;

    open spec fn view(&self) -> Phase<Text> {
        match *self {
            Phase::AwaitParse { entry } => Phase::AwaitParse { entry },
            Phase::AwaitEvaluate { entry } => Phase::AwaitEvaluate { entry },
            Phase::Ready => Phase::Ready,
            Phase::Failed(failure) => Phase::Failed(
                BootFailure { entry: failure.entry, stage: failure.stage, detail: failure.detail@ },
            ),
        }
    }
}

/// A session under construction, with the definitions it is built from.
pub struct Boot<S> {
    session: S,
    definitions: Vec<String>,
    phase: Phase<String>,
}

/// A bootstrap as specifications see it.
pub struct BootModel<S> {
    pub session: S,
    pub definitions: Seq<Text>,
    pub phase: Phase<Text>,
}

/// A request as specifications see it, where there is one.
pub open spec fn asked<Expr, Val, Sym>(turn: Option<Request<String, Expr, Val, Sym>>) -> Option<
    Request<Text, Expr, Val, Sym>,
> {
    match turn {
        Some(request) => Some(request@),
        None => None,
    }
}

/// Turning to definition `entry`: it is parsed next, or the bootstrap is
/// complete where the list has no such definition.
pub open spec fn enter<Expr, Val, Sym>(definitions: Seq<Text>, entry: int) -> (
    Phase<Text>,
    Option<Request<Text, Expr, Val, Sym>>,
) {
    if 0 <= entry < definitions.len() {
        (Phase::AwaitParse { entry: entry as usize }, Some(Request::Parse(definitions[entry])))
    } else {
        (Phase::Ready, None)
    }
}

/// The bootstrap's transition: the phase that follows when `reply` arrives in
/// `phase`, with the next request if there is one, or `None` where `phase` is
/// not waiting for such a reply.
pub open spec fn boot_step<Expr, Val, Sym>(
    definitions: Seq<Text>,
    phase: Phase<Text>,
    reply: Reply<Text, Expr, Val, Sym>,
) -> Option<(Phase<Text>, Option<Request<Text, Expr, Val, Sym>>)> {
    match (phase, reply) {
        (Phase::AwaitParse { entry }, Reply::Parsed(Ok(expr))) => Some(
            (Phase::AwaitEvaluate { entry }, Some(Request::Evaluate(expr))),
        ),
        (Phase::AwaitParse { entry }, Reply::Parsed(Err(detail))) => Some(
            (Phase::Failed(BootFailure { entry, stage: Stage::Parse, detail }), None),
        ),
        (Phase::AwaitEvaluate { entry }, Reply::Evaluated(Ok(_))) => Some(
            enter(definitions, entry + 1),
        ),
        (Phase::AwaitEvaluate { entry }, Reply::Evaluated(Err(detail))) => Some(
            (Phase::Failed(BootFailure { entry, stage: Stage::Evaluate, detail }), None),
        ),
        _ => None,
    }
}

/// The refusal that a reply meets in `phase` when `boot_step` has no
/// transition for it.
pub open spec fn boot_refusal(phase: Phase<Text>) -> Misuse {
    if phase is Ready || phase is Failed {
        Misuse::Finished
    } else {
        Misuse::Unexpected
    }
}

impl<S> Boot<S> {
    /// The session, the definitions' texts and the phase.
    pub closed spec fn view(&self) -> BootModel<S> {
        BootModel {
            session: self.session,
            definitions: texts(self.definitions@),
            phase: self.phase@,
        }
    }

    /// Starts building `session` from `definitions`: the first definition is
    /// to be parsed, or the session is ready at once where there is none.
    pub fn begin<Expr, Val, Sym>(session: S, definitions: Vec<String>) -> (begun: (
        Boot<S>,
        Option<Request<String, Expr, Val, Sym>>,
    ))
        ensures
            begun.0@.session == session,
            begun.0@.definitions == texts(definitions@),
            (begun.0@.phase, asked(begun.1)) == enter::<Expr, Val, Sym>(texts(definitions@), 0),
    {
        if definitions.len() > 0 {
            let first = definitions[0].clone();
            (
                Boot { session, definitions, phase: Phase::AwaitParse { entry: 0 } },
                Some(Request::Parse(first)),
            )
        } else {
            (Boot { session, definitions, phase: Phase::Ready }, None)
        }
    }

    /// The session under construction, for the interpreter core to work on.
    pub fn session_mut(&mut self) -> (session: &mut S)
        ensures
            *session == old(self)@.session,
            final(self)@ == (BootModel { session: *final(session), ..old(self)@ }),
    {
        &mut self.session
    }

    /// Where the bootstrap stands.
    pub fn phase(&self) -> (phase: &Phase<String>)
        ensures
            phase@ == self@.phase,
    {
        &self.phase
    }

    /// Ends the bootstrap: the session where every definition was parsed and
    /// evaluated, and nothing otherwise.
    pub fn finish(self) -> (built: Option<S>)
        ensures
            built == if self@.phase is Ready {
                Some(self@.session)
            } else {
                None
            },
    {
        match self.phase {
            Phase::Ready => Some(self.session),
            _ => None,
        }
    }
}

/// Advances a bootstrap by the interpreter core's reply to the pending
/// request.
///
/// Returns the bootstrap in its next phase, exactly as `boot_step` gives it,
/// with the next request if there is one; the session and the definitions
/// stay as they are. A reply that the phase is not waiting for is refused.
pub fn bootstrap<S, Expr, Val, Sym>(boot: Boot<S>, reply: Reply<String, Expr, Val, Sym>) -> (next:
    Result<(Boot<S>, Option<Request<String, Expr, Val, Sym>>), Misuse>)
    ensures
        match next {
            Ok((after, turn)) => {
                &&& after@.session == boot@.session
                &&& after@.definitions == boot@.definitions
                &&& boot_step(boot@.definitions, boot@.phase, reply@) == Some(
                    (after@.phase, asked(turn)),
                )
            },
            Err(misuse) => {
                &&& boot_step(boot@.definitions, boot@.phase, reply@) is None
                &&& misuse == boot_refusal(boot@.phase)
            },
        },
{
    let Boot { session, definitions, phase } = boot;
    match (phase, reply) {
        (Phase::AwaitParse { entry }, Reply::Parsed(Ok(expr))) => Ok(
            (
                Boot { session, definitions, phase: Phase::AwaitEvaluate { entry } },
                Some(Request::Evaluate(expr)),
            ),
        ),
        (Phase::AwaitParse { entry }, Reply::Parsed(Err(detail))) => Ok(
            (
                Boot {
                    session,
                    definitions,
                    phase: Phase::Failed(BootFailure { entry, stage: Stage::Parse, detail }),
                },
                None,
            ),
        ),
        (Phase::AwaitEvaluate { entry }, Reply::Evaluated(Ok(_))) => {
            if definitions.len() > 0 && entry < definitions.len() - 1 {
                let following = entry + 1;
                let text = definitions[following].clone();
                Ok(
                    (
                        Boot {
                            session,
                            definitions,
                            phase: Phase::AwaitParse { entry: following },
                        },
                        Some(Request::Parse(text)),
                    ),
                )
            } else {
                Ok((Boot { session, definitions, phase: Phase::Ready }, None))
            }
        },
        (Phase::AwaitEvaluate { entry }, Reply::Evaluated(Err(detail))) => Ok(
            (
                Boot {
                    session,
                    definitions,
                    phase: Phase::Failed(BootFailure { entry, stage: Stage::Evaluate, detail }),
                },
                None,
            ),
        ),
        (Phase::Ready, _) => Err(Misuse::Finished),
        (Phase::Failed(_), _) => Err(Misuse::Finished),
        _ => Err(Misuse::Unexpected),
    }
}

/// What the interpreter core answers in the course of a bootstrap: for each
/// definition its parse result and its evaluation result. An entry counts
/// only where the bootstrap gets that far.
pub struct BootAnswers<Expr, Val> {
    pub parsed: Seq<Result<Expr, Text>>,
    pub evaluated: Seq<Result<Val, Text>>,
}

/// The reply that the request pending in `phase` gets from an interpreter
/// core that answers with `answers`.
pub open spec fn boot_answer<Expr, Val, Sym>(answers: BootAnswers<Expr, Val>, phase: Phase<Text>) -> Reply<
    Text,
    Expr,
    Val,
    Sym,
> {
    match phase {
        Phase::AwaitEvaluate { entry } => Reply::Evaluated(answers.evaluated[entry as int]),
        Phase::AwaitParse { entry } => Reply::Parsed(answers.parsed[entry as int]),
        _ => Reply::Bound,
    }
}

/// A bound on the replies that a bootstrap in `phase` can still take.
pub open spec fn boot_remaining(definitions: Seq<Text>, phase: Phase<Text>) -> nat {
    match phase {
        Phase::AwaitParse { entry } => if entry < definitions.len() {
            (2 * (definitions.len() - entry) + 2) as nat
        } else {
            2
        },
        Phase::AwaitEvaluate { entry } => if entry < definitions.len() {
            (2 * (definitions.len() - entry) + 1) as nat
        } else {
            1
        },
        _ => 0,
    }
}

/// A bootstrap run to its end from `phase` and `turn` against `answers`: the
/// requests made, in order, and the phase in which it ends.
pub open spec fn boot_run<Expr, Val, Sym>(
    definitions: Seq<Text>,
    phase: Phase<Text>,
    turn: Option<Request<Text, Expr, Val, Sym>>,
    answers: BootAnswers<Expr, Val>,
) -> (Seq<Request<Text, Expr, Val, Sym>>, Phase<Text>)
    decreases boot_remaining(definitions, phase),
{
    match turn {
        None => (Seq::empty(), phase),
        Some(request) => match boot_step(definitions, phase, boot_answer(answers, phase)) {
            Some((after, then)) => if boot_remaining(definitions, after) < boot_remaining(
                definitions,
                phase,
            ) {
                let rest = boot_run(definitions, after, then, answers);
                (seq![request] + rest.0, rest.1)
            } else {
                (seq![request], phase)
            },
            None => (seq![request], phase),
        },
    }
}

/// Whether definition `entry` both parses and evaluates.
pub open spec fn succeeds<Expr, Val>(answers: BootAnswers<Expr, Val>, entry: int) -> bool {
    answers.parsed[entry] is Ok && answers.evaluated[entry] is Ok
}

/// The failure of definition `entry`, which does not succeed: at parsing
/// where it does not parse, and else at evaluation.
pub open spec fn failure_at<Expr, Val>(answers: BootAnswers<Expr, Val>, entry: int) -> BootFailure<
    Text,
> {
    match answers.parsed[entry] {
        Err(detail) => BootFailure { entry: entry as usize, stage: Stage::Parse, detail },
        Ok(_) => BootFailure {
            entry: entry as usize,
            stage: Stage::Evaluate,
            detail: answers.evaluated[entry]->Err_0,
        },
    }
}

/// The request that stands at `place` in a bootstrap: definitions are taken
/// in listed order, each one first parsed and then, as parsed, evaluated.
pub open spec fn request_at<Expr, Val, Sym>(
    definitions: Seq<Text>,
    answers: BootAnswers<Expr, Val>,
    place: int,
) -> Request<Text, Expr, Val, Sym> {
    if place % 2 == 0 {
        Request::Parse(definitions[place / 2])
    } else {
        Request::Evaluate(answers.parsed[place / 2]->Ok_0)
    }
}

/// The number of requests made by a bootstrap over `count` definitions that
/// ends in `phase`.
pub open spec fn requests_made(count: int, phase: Phase<Text>) -> int {
    match phase {
        Phase::Failed(failure) => 2 * failure.entry + if failure.stage is Parse {
            1int
        } else {
            2int
        },
        _ => 2 * count,
    }
}

proof fn lemma_run_from<Expr, Val, Sym>(
    definitions: Seq<Text>,
    answers: BootAnswers<Expr, Val>,
    from: int,
)
    requires
        0 <= from <= definitions.len() <= usize::MAX,
    ensures
        ({
            let start = enter::<Expr, Val, Sym>(definitions, from);
            let ran = boot_run(definitions, start.0, start.1, answers);
            &&& ran.1 is Ready || ran.1 is Failed
            &&& ran.1 is Ready ==> forall|i: int|
                from <= i < definitions.len() ==> succeeds(answers, i)
            &&& ran.1 matches Phase::Failed(failure) ==> {
                &&& from <= failure.entry < definitions.len()
                &&& forall|i: int| from <= i < failure.entry ==> succeeds(answers, i)
                &&& !succeeds(answers, failure.entry as int)
                &&& failure == failure_at(answers, failure.entry as int)
            }
            &&& ran.0.len() == requests_made(definitions.len() as int, ran.1) - 2 * from
            &&& forall|j: int|
                0 <= j < ran.0.len() ==> #[trigger] ran.0[j] == request_at::<Expr, Val, Sym>(
                    definitions,
                    answers,
                    2 * from + j,
                )
        }),
    decreases definitions.len() - from,
{
    let start = enter::<Expr, Val, Sym>(definitions, from);
    let ran = boot_run(definitions, start.0, start.1, answers);
    if from < definitions.len() {
        reveal_with_fuel(boot_run, 3);
        let parse = Request::<Text, Expr, Val, Sym>::Parse(definitions[from]);
        match answers.parsed[from] {
            Err(_) => {
                assert(ran.0 =~= seq![parse]);
            },
            Ok(expr) => {
                let evaluate = Request::<Text, Expr, Val, Sym>::Evaluate(expr);
                match answers.evaluated[from] {
                    Err(_) => {
                        assert(ran.0 =~= seq![parse] + seq![evaluate]);
                    },
                    Ok(_) => {
                        lemma_run_from::<Expr, Val, Sym>(definitions, answers, from + 1);
                        let next = enter::<Expr, Val, Sym>(definitions, from + 1);
                        let rest = boot_run(definitions, next.0, next.1, answers);
                        assert(ran.1 == rest.1);
                        assert(ran.0 =~= seq![parse] + (seq![evaluate] + rest.0));
                        assert forall|j: int| 0 <= j < ran.0.len() implies #[trigger] ran.0[j]
                            == request_at::<Expr, Val, Sym>(definitions, answers, 2 * from + j) by {
                            if j >= 2 {
                                assert(ran.0[j] == rest.0[j - 2]);
                            }
                        }
                    },
                }
            },
        }
    }
}

/// A bootstrap run from its start ends ready exactly where every definition
/// parses and evaluates, and else failed at the first definition that does
/// not, with that definition's failure; until then it takes the definitions
/// in listed order, parsing each and evaluating what was parsed, and asks
/// nothing after a failure.
pub proof fn lemma_bootstrap_outcome<Expr, Val, Sym>(
    definitions: Seq<Text>,
    answers: BootAnswers<Expr, Val>,
)
    requires
        definitions.len() <= usize::MAX,
    ensures
        ({
            let start = enter::<Expr, Val, Sym>(definitions, 0);
            let ran = boot_run(definitions, start.0, start.1, answers);
            &&& ran.1 is Ready || ran.1 is Failed
            &&& ran.1 is Ready <==> forall|i: int|
                0 <= i < definitions.len() ==> succeeds(answers, i)
            &&& ran.1 matches Phase::Failed(failure) ==> {
                &&& failure.entry < definitions.len()
                &&& forall|i: int| 0 <= i < failure.entry ==> succeeds(answers, i)
                &&& !succeeds(answers, failure.entry as int)
                &&& failure == failure_at(answers, failure.entry as int)
            }
            &&& ran.0.len() == requests_made(definitions.len() as int, ran.1)
            &&& forall|j: int|
                0 <= j < ran.0.len() ==> #[trigger] ran.0[j] == request_at::<Expr, Val, Sym>(
                    definitions,
                    answers,
                    j,
                )
        }),
{
    lemma_run_from::<Expr, Val, Sym>(definitions, answers, 0);
}

} // verus!
