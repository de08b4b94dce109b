//! The interpreter core as the boundary layer sees it: what can be asked of it,
//! and what it answers.
//!
//! The types are generic in the representation of text, `T`, which is `String`
//! in executable code and `Seq<char>` in specifications, and in the core's own
//! types for expressions, values and symbols, which the layer only hands on.

use vstd::prelude::*;

verus! {

/// Text as specifications see it.
pub type Text = Seq<char>;

/// The texts of a list of strings.
pub open spec fn texts(list: Seq<String>) -> Seq<Text> {
    Seq::new(list.len(), |i: int| list[i]@)
}

/// One operation asked of the interpreter core, always against the session at
/// hand.
pub enum Request<T, Expr, Val, Sym> {
    /// Parse this text.
    Parse(T),
    /// Intern this name in the symbol table.
    Intern(T),
    /// Evaluate this expression; the session's bindings may change.
    Evaluate(Expr),
    /// Render the value that the last evaluation produced, which the asking
    /// state still holds, starting at this nesting depth.
    Print { depth: usize },
    /// Bind the symbol to the value; `allow_redefine` says whether an existing
    /// binding may be replaced.
    Bind { symbol: Sym, value: Val, allow_redefine: bool },
}

/// The interpreter core's answer to one request. A failure carries the core's
/// rendering of its error.
pub enum Reply<T, Expr, Val, Sym> {
    /// Answers `Parse`.
    Parsed(Result<Expr, T>),
    /// Answers `Intern`.
    Interned(Sym),
    /// Answers `Evaluate`.
    Evaluated(Result<Val, T>),
    /// Answers `Print`.
    Printed(T),
    /// Answers `Bind`: the binding is in place.
    Bound,
}

/// Why a reply was not accepted.
#[derive(Clone, Copy, Debug, PartialEq, Eq, Structural)]
pub enum Misuse {
    /// The command or bootstrap had already come to its end.
    Finished,
    /// The reply answers another request than the one that is pending.
    Unexpected,
}

impl<Expr, Val, Sym> View for Request<String, Expr, Val, Sym> {
    type V = Request<Text, Expr, Val, Sym>;

    open spec fn view(&self) -> Request<Text, Expr, Val, Sym> {
        match *self {
            Request::Parse(text) => Request::Parse(text@),
            Request::Intern(name) => Request::Intern(name@),
            Request::Evaluate(expr) => Request::Evaluate(expr),
            Request::Print { depth } => Request::Print { depth },
            Request::Bind { symbol, value, allow_redefine } => Request::Bind {
                symbol,
                value,
                allow_redefine,
            },
        }
    }
}

impl<Expr, Val, Sym> View for Reply<String, Expr, Val, Sym> {
    type V = Reply<Text, Expr, Val, Sym>;

    open spec fn view(&self) -> Reply<Text, Expr, Val, Sym> {
        match *self {
            Reply::Parsed(Ok(expr)) => Reply::Parsed(Ok(expr)),
            Reply::Parsed(Err(detail)) => Reply::Parsed(Err(detail@)),
            Reply::Interned(symbol) => Reply::Interned(symbol),
            Reply::Evaluated(Ok(value)) => Reply::Evaluated(Ok(value)),
            Reply::Evaluated(Err(detail)) => Reply::Evaluated(Err(detail@)),
            Reply::Printed(text) => Reply::Printed(text@),
            Reply::Bound => Reply::Bound,
        }
    }
}

} // verus!
