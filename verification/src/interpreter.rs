use vstd::prelude::*;

use crate::ast::{AstNode, AstView, Ident};
use crate::environment::Environment;
use crate::value::{Value, ValueView};

verus! {

use vstd::string::StringExecFns;

/// An error raised while evaluating a well-formed program.
#[derive(Debug, PartialEq)]
pub enum EvalError {
    UnsupportedConversion,
    UndefinedIdent(Ident),
    UnexpectedTypeForOperation,
}

/// The mathematical model of an `EvalError`.
pub enum EvalErrorView {
    UnsupportedConversion,
    UndefinedIdent(Seq<char>),
    UnexpectedTypeForOperation,
}

impl View for EvalError {
    type V = EvalErrorView;

    open spec fn view(&self) -> EvalErrorView {
        match self {
            EvalError::UnsupportedConversion => EvalErrorView::UnsupportedConversion,
            EvalError::UndefinedIdent(id) => EvalErrorView::UndefinedIdent(id@),
            EvalError::UnexpectedTypeForOperation => EvalErrorView::UnexpectedTypeForOperation,
        }
    }
}

/// The truthiness rule: every value coerces to a boolean, so this coercion
/// never fails.  Zero, the empty string and null are false; booleans pass
/// through unchanged; everything else is true.
pub open spec fn spec_truthy(v: ValueView) -> bool {
    match v {
        ValueView::Boolean(b) => b,
        ValueView::Number(n) => n != 0,
        ValueView::String(s) => s.len() != 0,
        ValueView::Null => false,
    }
}

/// The numeric coercion: defined for numbers only.
pub open spec fn spec_to_number(v: ValueView) -> Result<i64, EvalErrorView> {
    match v {
        ValueView::Number(n) => Ok(n),
        _ => Err(EvalErrorView::UnsupportedConversion),
    }
}

/// What `$add` yields on two evaluated operands: the (wrapping) sum of two
/// numbers, the concatenation of two strings, and an error on any other
/// pairing.
pub open spec fn spec_add(l: ValueView, r: ValueView) -> Result<ValueView, EvalErrorView> {
    match (l, r) {
        (ValueView::Number(a), ValueView::Number(b)) => Ok(
            ValueView::Number(vstd::wrapping::i64_specs::wrapping_add(a, b)),
        ),
        (ValueView::String(a), ValueView::String(b)) => Ok(ValueView::String(a + b)),
        _ => Err(EvalErrorView::UnexpectedTypeForOperation),
    }
}

/// What `$sub` yields on two evaluated operands: the (wrapping) difference
/// of their numeric coercions, the left coercion failing first.
pub open spec fn spec_sub(l: ValueView, r: ValueView) -> Result<ValueView, EvalErrorView> {
    match (spec_to_number(l), spec_to_number(r)) {
        (Ok(a), Ok(b)) => Ok(ValueView::Number(vstd::wrapping::i64_specs::wrapping_sub(a, b))),
        (Err(e), _) => Err(e),
        (_, Err(e)) => Err(e),
    }
}

/// The evaluator's semantics, by structural induction on the tree: each node
/// yields a value or the first error raised, together with the environment
/// as it stands afterwards.  Operands are evaluated eagerly, left before
/// right, with no short-circuit: an error in a subexpression stops the
/// enclosing expression, and only `Bind` writes the environment.
pub open spec fn spec_eval(ast: AstView, env: Map<Seq<char>, ValueView>) -> (Result<
    ValueView,
    EvalErrorView,
>, Map<Seq<char>, ValueView>)
    decreases ast,
{
    match ast {
        AstView::Literal(v) => (Ok(v), env),
        AstView::Ident(name) => if env.contains_key(name) {
            (Ok(env[name]), env)
        } else {
            (Err(EvalErrorView::UndefinedIdent(name)), env)
        },
        AstView::Add(l, r) => match spec_eval(*l, env) {
            (Ok(lv), env1) => match spec_eval(*r, env1) {
                (Ok(rv), env2) => (spec_add(lv, rv), env2),
                (Err(e), env2) => (Err(e), env2),
            },
            (Err(e), env1) => (Err(e), env1),
        },
        AstView::Sub(l, r) => match spec_eval(*l, env) {
            (Ok(lv), env1) => match spec_eval(*r, env1) {
                (Ok(rv), env2) => (spec_sub(lv, rv), env2),
                (Err(e), env2) => (Err(e), env2),
            },
            (Err(e), env1) => (Err(e), env1),
        },
        AstView::And(l, r) => match spec_eval(*l, env) {
            (Ok(lv), env1) => match spec_eval(*r, env1) {
                (Ok(rv), env2) => (
                    Ok(ValueView::Boolean(spec_truthy(lv) && spec_truthy(rv))),
                    env2,
                ),
                (Err(e), env2) => (Err(e), env2),
            },
            (Err(e), env1) => (Err(e), env1),
        },
        AstView::Or(l, r) => match spec_eval(*l, env) {
            (Ok(lv), env1) => match spec_eval(*r, env1) {
                (Ok(rv), env2) => (
                    Ok(ValueView::Boolean(spec_truthy(lv) || spec_truthy(rv))),
                    env2,
                ),
                (Err(e), env2) => (Err(e), env2),
            },
            (Err(e), env1) => (Err(e), env1),
        },
        AstView::Not(x) => match spec_eval(*x, env) {
            (Ok(v), env1) => (Ok(ValueView::Boolean(!spec_truthy(v))), env1),
            (Err(e), env1) => (Err(e), env1),
        },
        AstView::Eq(l, r) => match spec_eval(*l, env) {
            (Ok(lv), env1) => match spec_eval(*r, env1) {
                (Ok(rv), env2) => (Ok(ValueView::Boolean(lv == rv)), env2),
                (Err(e), env2) => (Err(e), env2),
            },
            (Err(e), env1) => (Err(e), env1),
        },
        AstView::NotEq(l, r) => match spec_eval(*l, env) {
            (Ok(lv), env1) => match spec_eval(*r, env1) {
                (Ok(rv), env2) => (Ok(ValueView::Boolean(lv != rv)), env2),
                (Err(e), env2) => (Err(e), env2),
            },
            (Err(e), env1) => (Err(e), env1),
        },
        AstView::If(c, t, e) => match spec_eval(*c, env) {
            (Ok(cv), env1) => if spec_truthy(cv) {
                spec_eval(*t, env1)
            } else {
                match e {
                    Some(eb) => spec_eval(*eb, env1),
                    None => (Ok(ValueView::Null), env1),
                }
            },
            (Err(er), env1) => (Err(er), env1),
        },
        // The conditional-repeat form is recognized by the parser but has no
        // evaluation semantics: evaluating it is an error, and nothing of it
        // is evaluated.
        AstView::While(_, _) => (Err(EvalErrorView::UnexpectedTypeForOperation), env),
        AstView::Bind(name, e) => match spec_eval(*e, env) {
            (Ok(v), env1) => (Ok(ValueView::Null), env1.insert(name, v)),
            (Err(er), env1) => (Err(er), env1),
        },
    }
}

/// The character for one decimal digit.
pub open spec fn digit_char(d: nat) -> char {
    if d == 0 {
        '0'
    } else if d == 1 {
        '1'
    } else if d == 2 {
        '2'
    } else if d == 3 {
        '3'
    } else if d == 4 {
        '4'
    } else if d == 5 {
        '5'
    } else if d == 6 {
        '6'
    } else if d == 7 {
        '7'
    } else if d == 8 {
        '8'
    } else {
        '9'
    }
}

/// The decimal digits of a natural number, most significant first.
pub open spec fn dec_digits(n: nat) -> Seq<char>
    decreases n,
{
    if n < 10 {
        seq![digit_char(n)]
    } else {
        dec_digits(n / 10) + seq![digit_char(n % 10)]
    }
}

/// The decimal rendering of an integer: its digits, with a leading minus
/// sign when it is negative.
pub open spec fn decimal_of(n: int) -> Seq<char> {
    if n < 0 {
        seq!['-'] + dec_digits((-n) as nat)
    } else {
        dec_digits(n as nat)
    }
}

/// The textual coercion, used for presentation only: a number renders in
/// decimal, a string is itself, null renders as "null", and a boolean as
/// "true" or "false".
pub open spec fn spec_to_string(v: ValueView) -> Seq<char> {
    match v {
        ValueView::Number(n) => decimal_of(n as int),
        ValueView::String(s) => s,
        ValueView::Null => "null"@,
        ValueView::Boolean(b) => if b {
            "true"@
        } else {
            "false"@
        },
    }
}

fn digit_str(d: u64) -> (r: &'static str)
    requires
        d < 10,
    ensures
        r@ == seq![digit_char(d as nat)],
{
    proof {
        reveal_strlit("0");
        reveal_strlit("1");
        reveal_strlit("2");
        reveal_strlit("3");
        reveal_strlit("4");
        reveal_strlit("5");
        reveal_strlit("6");
        reveal_strlit("7");
        reveal_strlit("8");
        reveal_strlit("9");
    }
    if d == 0 {
        "0"
    } else if d == 1 {
        "1"
    } else if d == 2 {
        "2"
    } else if d == 3 {
        "3"
    } else if d == 4 {
        "4"
    } else if d == 5 {
        "5"
    } else if d == 6 {
        "6"
    } else if d == 7 {
        "7"
    } else if d == 8 {
        "8"
    } else {
        "9"
    }
}

/// Appends the decimal digits of `m` to `out`, most significant first.
fn push_digits(m: u64, out: &mut String)
    ensures
        final(out)@ == old(out)@ + dec_digits(m as nat),
    decreases m,
{
    if m >= 10 {
        push_digits(m / 10, out);
    }
    out.append(digit_str(m % 10));
    proof {
        if m >= 10 {
            assert(out@ == old(out)@ + dec_digits((m / 10) as nat) + seq![
                digit_char((m % 10) as nat),
            ]);
            assert(out@ =~= old(out)@ + dec_digits(m as nat));
        } else {
            assert(out@ =~= old(out)@ + dec_digits(m as nat));
        }
    }
}

impl Value {
    /// The numeric coercion: yields the number a `Number` holds, and fails
    /// on every other variant.
    pub fn to_number(&self) -> (r: Result<i64, EvalError>)
        ensures
            match r {
                Ok(n) => spec_to_number(self@) == Ok::<i64, EvalErrorView>(n),
                Err(e) => spec_to_number(self@) == Err::<i64, EvalErrorView>(e@),
            },
    {
        if let Value::Number(num) = self {
            Ok(*num)
        } else {
            Err(EvalError::UnsupportedConversion)
        }
    }

    /// The textual coercion: renders the value as `spec_to_string` says.
    /// It succeeds on every value.
    pub fn to_string(&self) -> (r: Result<String, EvalError>)
        ensures
            r matches Ok(s) && s@ == spec_to_string(self@),
    {
        match self {
            Value::Number(n) => {
                let n = *n;
                let mut out = String::new();
                if n < 0 {
                    proof {
                        reveal_strlit("-");
                    }
                    out.append("-");
                }
                let m: u64 = if n >= 0 {
                    n as u64
                } else if n == i64::MIN {
                    9223372036854775808u64
                } else {
                    (-n) as u64
                };
                push_digits(m, &mut out);
                proof {
                    assert(out@ =~= spec_to_string(self@));
                }
                Ok(out)
            }
            Value::String(s) => Ok(s.clone()),
            Value::Null => Ok(String::from_str("null")),
            Value::Boolean(b) => Ok(
                String::from_str(
                    if *b {
                        "true"
                    } else {
                        "false"
                    },
                ),
            ),
        }
    }

    /// The truthiness coercion: it succeeds on every value, as
    /// `spec_truthy` says.
    pub fn to_boolean(&self) -> (r: Result<bool, EvalError>)
        ensures
            r == Ok::<bool, EvalError>(spec_truthy(self@)),
    {
        match self {
            Value::Boolean(b) => Ok(*b),
            Value::Number(n) => Ok(*n != 0),
            Value::String(s) => Ok(!s.as_str().is_empty()),
            Value::Null => Ok(false),
        }
    }
}

/// The model of an evaluation outcome.
pub open spec fn eval_result_view(r: Result<Value, EvalError>) -> Result<
    ValueView,
    EvalErrorView,
> {
    match r {
        Ok(v) => Ok(v@),
        Err(e) => Err(e@),
    }
}

/// One interpreter session: the evaluator together with its global
/// environment, which lives as long as the session does.
pub struct Interpreter {
    global_env: Environment,
}

impl View for Interpreter {
    type V = Map<Seq<char>, ValueView>;

    closed spec fn view(&self) -> Map<Seq<char>, ValueView> {
        self.global_env@
    }
}

impl Interpreter {
    /// A fresh session, with an empty global environment.
    pub fn new() -> (r: Interpreter)
        ensures
            r@ == Map::<Seq<char>, ValueView>::empty(),
    {
        Interpreter { global_env: Environment::new() }
    }

    /// Evaluates a tree against the session's environment, exactly as
    /// `spec_eval` says: the result is the value or first error of the
    /// tree, and the environment afterwards holds every binding the
    /// evaluated part made.
    pub fn eval(&mut self, ast: &AstNode) -> (r: Result<Value, EvalError>)
        ensures
            eval_result_view(r) == spec_eval(ast@, old(self)@).0,
            final(self)@ == spec_eval(ast@, old(self)@).1,
        decreases *ast,
    {
        match ast {
            AstNode::Literal(value) => Ok(value.clone()),
            AstNode::Ident(ident) => match self.global_env.get(ident) {
                Some(v) => Ok(v.clone()),
                None => Err(EvalError::UndefinedIdent(ident.clone())),
            },
            AstNode::Add(lhs, rhs) => {
                let lv = match self.eval(lhs) {
                    Ok(v) => v,
                    Err(e) => return Err(e),
                };
                let rv = match self.eval(rhs) {
                    Ok(v) => v,
                    Err(e) => return Err(e),
                };
                match (lv, rv) {
                    (Value::Number(a), Value::Number(b)) => Ok(Value::Number(a.wrapping_add(b))),
                    (Value::String(a), Value::String(b)) => Ok(Value::String(a.concat(b.as_str()))),
                    _ => Err(EvalError::UnexpectedTypeForOperation),
                }
            }
            AstNode::Sub(lhs, rhs) => {
                let lv = match self.eval(lhs) {
                    Ok(v) => v,
                    Err(e) => return Err(e),
                };
                let rv = match self.eval(rhs) {
                    Ok(v) => v,
                    Err(e) => return Err(e),
                };
                let a = match lv.to_number() {
                    Ok(n) => n,
                    Err(e) => return Err(e),
                };
                let b = match rv.to_number() {
                    Ok(n) => n,
                    Err(e) => return Err(e),
                };
                Ok(Value::Number(a.wrapping_sub(b)))
            }
            AstNode::And(lhs, rhs) => {
                let lv = match self.eval(lhs) {
                    Ok(v) => v,
                    Err(e) => return Err(e),
                };
                let rv = match self.eval(rhs) {
                    Ok(v) => v,
                    Err(e) => return Err(e),
                };
                let lb = match lv.to_boolean() {
                    Ok(b) => b,
                    Err(e) => return Err(e),
                };
                let rb = match rv.to_boolean() {
                    Ok(b) => b,
                    Err(e) => return Err(e),
                };
                Ok(Value::Boolean(lb && rb))
            }
            AstNode::Or(lhs, rhs) => {
                let lv = match self.eval(lhs) {
                    Ok(v) => v,
                    Err(e) => return Err(e),
                };
                let rv = match self.eval(rhs) {
                    Ok(v) => v,
                    Err(e) => return Err(e),
                };
                let lb = match lv.to_boolean() {
                    Ok(b) => b,
                    Err(e) => return Err(e),
                };
                let rb = match rv.to_boolean() {
                    Ok(b) => b,
                    Err(e) => return Err(e),
                };
                Ok(Value::Boolean(lb || rb))
            }
            AstNode::Not(arg) => {
                let v = match self.eval(arg) {
                    Ok(v) => v,
                    Err(e) => return Err(e),
                };
                let b = match v.to_boolean() {
                    Ok(b) => b,
                    Err(e) => return Err(e),
                };
                Ok(Value::Boolean(!b))
            }
            AstNode::Eq(lhs, rhs) => {
                let lv = match self.eval(lhs) {
                    Ok(v) => v,
                    Err(e) => return Err(e),
                };
                let rv = match self.eval(rhs) {
                    Ok(v) => v,
                    Err(e) => return Err(e),
                };
                Ok(Value::Boolean(lv == rv))
            }
            AstNode::NotEq(lhs, rhs) => {
                let lv = match self.eval(lhs) {
                    Ok(v) => v,
                    Err(e) => return Err(e),
                };
                let rv = match self.eval(rhs) {
                    Ok(v) => v,
                    Err(e) => return Err(e),
                };
                Ok(Value::Boolean(!(lv == rv)))
            }
            AstNode::If(cond, true_branch, false_branch) => {
                let cv = match self.eval(cond) {
                    Ok(v) => v,
                    Err(e) => return Err(e),
                };
                let cb = match cv.to_boolean() {
                    Ok(b) => b,
                    Err(e) => return Err(e),
                };
                if cb {
                    self.eval(true_branch)
                } else {
                    match false_branch {
                        Some(fb) => self.eval(fb),
                        None => Ok(Value::Null),
                    }
                }
            }
            // Recognized by the parser, not evaluated: see `spec_eval`.
            AstNode::While(_, _) => Err(EvalError::UnexpectedTypeForOperation),
            AstNode::Bind(ident, expr) => {
                let value = match self.eval(expr) {
                    Ok(v) => v,
                    Err(e) => return Err(e),
                };
                self.global_env.insert(ident.clone(), value);
                Ok(Value::Null)
            }
        }
    }
}

} // verus!
