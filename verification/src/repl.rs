use vstd::prelude::*;

use crate::interpreter::{spec_eval, EvalError, EvalErrorView, Interpreter};
use crate::jir::{spec_parse, JirParser, ParseError};
use crate::value::{Value, ValueView};

verus! {

/// An error surfaced by a session: a parse error or an evaluation error,
/// the two disjoint families merged into one reported outcome.
#[derive(Debug, PartialEq)]
pub enum ReplError {
    ParseError(ParseError),
    EvalError(EvalError),
}

/// The mathematical model of a `ReplError`.
pub enum ReplErrorView {
    ParseError(ParseError),
    EvalError(EvalErrorView),
}

impl View for ReplError {
    type V = ReplErrorView;

    open spec fn view(&self) -> ReplErrorView {
        match self {
            ReplError::ParseError(e) => ReplErrorView::ParseError(*e),
            ReplError::EvalError(e) => ReplErrorView::EvalError(e@),
        }
    }
}

/// What one run of a session on a program text yields, with the
/// environment it leaves behind: on a parse failure the error surfaces at
/// once, nothing is evaluated and the environment is untouched; a parsed
/// program is evaluated against the environment as it stands.
pub open spec fn spec_run(s: Seq<char>, env: Map<Seq<char>, ValueView>) -> (Result<
    ValueView,
    ReplErrorView,
>, Map<Seq<char>, ValueView>) {
    match spec_parse(s) {
        Err(pe) => (Err(ReplErrorView::ParseError(pe)), env),
        Ok(ast) => match spec_eval(ast, env) {
            (Ok(v), env1) => (Ok(v), env1),
            (Err(ee), env1) => (Err(ReplErrorView::EvalError(ee)), env1),
        },
    }
}

/// The model of a session outcome.
pub open spec fn run_result_view(r: Result<Value, ReplError>) -> Result<ValueView, ReplErrorView> {
    match r {
        Ok(v) => Ok(v@),
        Err(e) => Err(e@),
    }
}

/// One session as the front end drives it: programs come in as JSON text,
/// and the global environment lives for the whole session.
pub struct Repl {
    interpreter: Interpreter,
}

impl View for Repl {
    type V = Map<Seq<char>, ValueView>;

    closed spec fn view(&self) -> Map<Seq<char>, ValueView> {
        self.interpreter@
    }
}

impl Repl {
    /// A fresh session, with an empty global environment.
    pub fn new() -> (r: Repl)
        ensures
            r@ == Map::<Seq<char>, ValueView>::empty(),
    {
        Repl { interpreter: Interpreter::new() }
    }

    /// Parses, then evaluates, one program text against the session's
    /// environment, exactly as `spec_run` says; when parsing fails, the
    /// evaluator is never invoked.
    pub fn eval_str(&mut self, s: &str) -> (r: Result<Value, ReplError>)
        ensures
            run_result_view(r) == spec_run(s@, old(self)@).0,
            final(self)@ == spec_run(s@, old(self)@).1,
    {
        let node = match JirParser::parse_json(s) {
            Ok(n) => n,
            Err(e) => return Err(ReplError::ParseError(e)),
        };
        match self.interpreter.eval(&node) {
            Ok(v) => Ok(v),
            Err(e) => Err(ReplError::EvalError(e)),
        }
    }
}

} // verus!
