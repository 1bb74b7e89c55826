use vstd::prelude::*;

use crate::ast::AstView;
use crate::interpreter::{spec_eval, spec_truthy, EvalErrorView};
use crate::jir::{spec_parse, spec_parse_compound, ParseError};
use crate::json::{json_of, JsonView};
use crate::repl::{spec_run, ReplErrorView};
use crate::value::ValueView;

verus! {

/// `$add` on two number literals yields their sum, for every pair of
/// numbers whose sum is in the number range, and leaves the environment
/// unchanged.
pub proof fn lemma_add_number_literals(a: i64, b: i64, env: Map<Seq<char>, ValueView>)
    requires
        i64::MIN <= a + b <= i64::MAX,
    ensures
        spec_eval(
            AstView::Add(
                Box::new(AstView::Literal(ValueView::Number(a))),
                Box::new(AstView::Literal(ValueView::Number(b))),
            ),
            env,
        ) == (Ok::<ValueView, EvalErrorView>(ValueView::Number((a + b) as i64)), env),
{
    reveal_with_fuel(spec_eval, 2);
}

/// `$sub` on two number literals yields their difference, for every pair
/// of numbers whose difference is in the number range, and leaves the
/// environment unchanged.
pub proof fn lemma_sub_number_literals(a: i64, b: i64, env: Map<Seq<char>, ValueView>)
    requires
        i64::MIN <= a - b <= i64::MAX,
    ensures
        spec_eval(
            AstView::Sub(
                Box::new(AstView::Literal(ValueView::Number(a))),
                Box::new(AstView::Literal(ValueView::Number(b))),
            ),
            env,
        ) == (Ok::<ValueView, EvalErrorView>(ValueView::Number((a - b) as i64)), env),
{
    reveal_with_fuel(spec_eval, 2);
}

/// `$add` on two string literals concatenates them; on one number and one
/// string literal, in either order, it is a type error.  The environment
/// is unchanged in every case.
pub proof fn lemma_add_strings_and_mixed(
    s: Seq<char>,
    t: Seq<char>,
    n: i64,
    env: Map<Seq<char>, ValueView>,
)
    ensures
        spec_eval(
            AstView::Add(
                Box::new(AstView::Literal(ValueView::String(s))),
                Box::new(AstView::Literal(ValueView::String(t))),
            ),
            env,
        ) == (Ok::<ValueView, EvalErrorView>(ValueView::String(s + t)), env),
        spec_eval(
            AstView::Add(
                Box::new(AstView::Literal(ValueView::Number(n))),
                Box::new(AstView::Literal(ValueView::String(s))),
            ),
            env,
        ) == (Err::<ValueView, EvalErrorView>(EvalErrorView::UnexpectedTypeForOperation), env),
        spec_eval(
            AstView::Add(
                Box::new(AstView::Literal(ValueView::String(s))),
                Box::new(AstView::Literal(ValueView::Number(n))),
            ),
            env,
        ) == (Err::<ValueView, EvalErrorView>(EvalErrorView::UnexpectedTypeForOperation), env),
{
    reveal_with_fuel(spec_eval, 2);
}

/// Binding a name to the value of an expression and then referencing that
/// name yields exactly the bound value: the bind itself yields null, and
/// the reference reads what was inserted.
pub proof fn lemma_bind_then_ref(name: Seq<char>, e: AstView, env: Map<Seq<char>, ValueView>)
    requires
        spec_eval(e, env).0 is Ok,
    ensures
        ({
            let (r, env1) = spec_eval(AstView::Bind(name, Box::new(e)), env);
            &&& r == Ok::<ValueView, EvalErrorView>(ValueView::Null)
            &&& env1 == spec_eval(e, env).1.insert(name, spec_eval(e, env).0->Ok_0)
            &&& spec_eval(AstView::Ident(name), env1) == (
                Ok::<ValueView, EvalErrorView>(spec_eval(e, env).0->Ok_0),
                env1,
            )
        }),
{
    reveal_with_fuel(spec_eval, 2);
}

/// Referencing a name that is not bound is an undefined-identifier error,
/// and changes nothing.
pub proof fn lemma_unbound_ref(name: Seq<char>, env: Map<Seq<char>, ValueView>)
    requires
        !env.contains_key(name),
    ensures
        spec_eval(AstView::Ident(name), env) == (
            Err::<ValueView, EvalErrorView>(EvalErrorView::UndefinedIdent(name)),
            env,
        ),
{
}

/// `$if` evaluates only the branch its condition picks: with a truthy
/// condition it is exactly the then-branch, with a falsy condition exactly
/// the else-branch, or null where there is none — so the untaken branch
/// leaves no trace in the environment.
pub proof fn lemma_if_picks_one_branch(
    c: AstView,
    t: AstView,
    e: Option<Box<AstView>>,
    env: Map<Seq<char>, ValueView>,
)
    requires
        spec_eval(c, env).0 is Ok,
    ensures
        ({
            let cv = spec_eval(c, env).0->Ok_0;
            let env1 = spec_eval(c, env).1;
            let whole = spec_eval(AstView::If(Box::new(c), Box::new(t), e), env);
            &&& spec_truthy(cv) ==> whole == spec_eval(t, env1)
            &&& !spec_truthy(cv) && e is Some ==> whole == spec_eval(*e->0, env1)
            &&& !spec_truthy(cv) && e is None ==> whole == (
                Ok::<ValueView, EvalErrorView>(ValueView::Null),
                env1,
            )
        }),
{
}

/// The truthiness rule: zero, the empty string and null are false; every
/// other number and every nonempty string are true; a boolean passes
/// through unchanged.
pub proof fn lemma_truthiness(n: i64, s: Seq<char>, b: bool)
    ensures
        !spec_truthy(ValueView::Number(0)),
        n != 0 ==> spec_truthy(ValueView::Number(n)),
        !spec_truthy(ValueView::String(Seq::empty())),
        s.len() > 0 ==> spec_truthy(ValueView::String(s)),
        !spec_truthy(ValueView::Null),
        spec_truthy(ValueView::Boolean(b)) == b,
{
}

/// `$eq` on two literals is structural equality of the values: it is
/// reflexive, symmetric, and false across different variants, since equal
/// values share a variant tag.
pub proof fn lemma_eq_structural(l: ValueView, r: ValueView, env: Map<Seq<char>, ValueView>)
    ensures
        spec_eval(
            AstView::Eq(
                Box::new(AstView::Literal(l)),
                Box::new(AstView::Literal(r)),
            ),
            env,
        ) == (Ok::<ValueView, EvalErrorView>(ValueView::Boolean(l == r)), env),
        spec_eval(
            AstView::Eq(Box::new(AstView::Literal(l)), Box::new(AstView::Literal(l))),
            env,
        ) == (Ok::<ValueView, EvalErrorView>(ValueView::Boolean(true)), env),
        spec_eval(
            AstView::Eq(Box::new(AstView::Literal(l)), Box::new(AstView::Literal(r))),
            env,
        ).0 == spec_eval(
            AstView::Eq(Box::new(AstView::Literal(r)), Box::new(AstView::Literal(l))),
            env,
        ).0,
{
    reveal_with_fuel(spec_eval, 2);
}

/// `$notEq` is the exact negation of `$eq` for every pair of operand
/// expressions: where `$eq` yields a boolean, `$notEq` yields its
/// negation; where `$eq` fails, `$notEq` fails the same way; and both
/// leave the environment in the same state.
pub proof fn lemma_noteq_negates_eq(l: AstView, r: AstView, env: Map<Seq<char>, ValueView>)
    ensures
        ({
            let (er, env1) = spec_eval(AstView::Eq(Box::new(l), Box::new(r)), env);
            let (nr, env2) = spec_eval(AstView::NotEq(Box::new(l), Box::new(r)), env);
            &&& env2 == env1
            &&& (er matches Ok(v) ==> v matches ValueView::Boolean(b) && nr == Ok::<
                ValueView,
                EvalErrorView,
            >(ValueView::Boolean(!b)))
            &&& (er is Err ==> nr == er)
        }),
{
}

/// Arity violations are detected before any operand is looked at: a
/// `$add` form with too few elements is a not-enough-arguments parse
/// error, and one with too many is a too-many error, whatever its
/// operands hold.
pub proof fn lemma_add_arity_checked_first(elems: Seq<JsonView>)
    requires
        1 <= elems.len() <= usize::MAX,
        elems[0] == JsonView::Str("$add"@),
    ensures
        elems.len() < 3 ==> spec_parse_compound(elems) == Err::<AstView, ParseError>(
            ParseError::NotEnoughArgs { actual: elems.len() as usize, expected_min: 3 },
        ),
        elems.len() > 3 ==> spec_parse_compound(elems) == Err::<AstView, ParseError>(
            ParseError::TooManyArgs { actual: elems.len() as usize, expected_max: 3 },
        ),
{
}

/// Text that is not JSON yields the invalid-JSON parse error, and running
/// it changes nothing: the evaluator is never invoked.
pub proof fn lemma_invalid_json_stops_early(s: Seq<char>, env: Map<Seq<char>, ValueView>)
    requires
        json_of(s) is None,
    ensures
        spec_parse(s) == Err::<AstView, ParseError>(ParseError::InvalidJson),
        spec_run(s, env) == (
            Err::<ValueView, ReplErrorView>(ReplErrorView::ParseError(ParseError::InvalidJson)),
            env,
        ),
{
}

} // verus!

