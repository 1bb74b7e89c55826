use json_monkey_rs::ast::Ident;
use json_monkey_rs::interpreter::EvalError;
use json_monkey_rs::jir::ParseError;
use json_monkey_rs::repl::{Repl, ReplError};
use json_monkey_rs::value::Value;

#[test]
fn it_runs_arithmetic_programs() -> Result<(), ReplError> {
    let mut repl = Repl::new();
    assert_eq!(repl.eval_str(r#"["$add", 1, 2]"#)?, Value::Number(3));
    assert_eq!(repl.eval_str(r#"["$sub", 5, 2]"#)?, Value::Number(3));
    assert_eq!(
        repl.eval_str(r#"["$add", ["$add", 1, 2], 3]"#)?,
        Value::Number(6)
    );
    Ok(())
}

#[test]
fn it_concatenates_strings_in_a_program() -> Result<(), ReplError> {
    let mut repl = Repl::new();
    assert_eq!(
        repl.eval_str(r#"["$add", "foo", "bar"]"#)?,
        Value::String("foobar".into())
    );
    assert_eq!(
        repl.eval_str(r#"["$add", 1, "bar"]"#),
        Err(ReplError::EvalError(EvalError::UnexpectedTypeForOperation))
    );
    Ok(())
}

#[test]
fn it_binds_then_references_in_one_session() -> Result<(), ReplError> {
    let mut repl = Repl::new();
    assert_eq!(repl.eval_str(r#"["$bind", "x", 1]"#)?, Value::Null);
    assert_eq!(repl.eval_str(r#"["$ref", "x"]"#)?, Value::Number(1));
    Ok(())
}

#[test]
fn it_overwrites_a_binding() -> Result<(), ReplError> {
    let mut repl = Repl::new();
    repl.eval_str(r#"["$bind", "x", 1]"#)?;
    repl.eval_str(r#"["$bind", "x", 2]"#)?;
    assert_eq!(repl.eval_str(r#"["$ref", "x"]"#)?, Value::Number(2));
    Ok(())
}

#[test]
fn it_reports_an_unbound_name() {
    let mut repl = Repl::new();
    assert_eq!(
        repl.eval_str(r#"["$ref", "nope"]"#),
        Err(ReplError::EvalError(EvalError::UndefinedIdent(Ident(
            "nope".into()
        ))))
    );
}

#[test]
fn it_takes_only_the_live_branch_of_if() -> Result<(), ReplError> {
    let mut repl = Repl::new();
    assert_eq!(repl.eval_str(r#"["$if", true, 1, 2]"#)?, Value::Number(1));
    assert_eq!(repl.eval_str(r#"["$if", false, 1, 2]"#)?, Value::Number(2));
    assert_eq!(repl.eval_str(r#"["$if", false, 1]"#)?, Value::Null);
    // The untaken branch leaves no trace: the bind inside it never runs.
    assert_eq!(
        repl.eval_str(r#"["$if", false, ["$bind", "y", 1], 2]"#)?,
        Value::Number(2)
    );
    assert_eq!(
        repl.eval_str(r#"["$ref", "y"]"#),
        Err(ReplError::EvalError(EvalError::UndefinedIdent(Ident(
            "y".into()
        ))))
    );
    Ok(())
}

#[test]
fn it_applies_truthiness_to_conditions() -> Result<(), ReplError> {
    let mut repl = Repl::new();
    assert_eq!(repl.eval_str(r#"["$if", 0, 1, 2]"#)?, Value::Number(2));
    assert_eq!(repl.eval_str(r#"["$if", 3, 1, 2]"#)?, Value::Number(1));
    assert_eq!(repl.eval_str(r#"["$if", -3, 1, 2]"#)?, Value::Number(1));
    assert_eq!(repl.eval_str(r#"["$if", "", 1, 2]"#)?, Value::Number(2));
    assert_eq!(repl.eval_str(r#"["$if", "a", 1, 2]"#)?, Value::Number(1));
    assert_eq!(repl.eval_str(r#"["$if", null, 1, 2]"#)?, Value::Number(2));
    assert_eq!(repl.eval_str(r#"["$not", 0]"#)?, Value::Boolean(true));
    assert_eq!(repl.eval_str(r#"["$and", 1, ""]"#)?, Value::Boolean(false));
    assert_eq!(repl.eval_str(r#"["$or", 0, "a"]"#)?, Value::Boolean(true));
    Ok(())
}

#[test]
fn it_compares_structurally() -> Result<(), ReplError> {
    let mut repl = Repl::new();
    assert_eq!(repl.eval_str(r#"["$eq", 1, 1]"#)?, Value::Boolean(true));
    assert_eq!(repl.eval_str(r#"["$eq", 1, "1"]"#)?, Value::Boolean(false));
    assert_eq!(repl.eval_str(r#"["$notEq", 1, 1]"#)?, Value::Boolean(false));
    assert_eq!(
        repl.eval_str(r#"["$notEq", 1, "1"]"#)?,
        Value::Boolean(true)
    );
    Ok(())
}

#[test]
fn it_surfaces_parse_errors_without_evaluating() -> Result<(), ReplError> {
    let mut repl = Repl::new();
    assert_eq!(
        repl.eval_str("["),
        Err(ReplError::ParseError(ParseError::InvalidJson))
    );
    // An arity error is found before evaluation ever starts: the bind in
    // the malformed form creates no binding.
    assert_eq!(
        repl.eval_str(r#"["$add", ["$bind", "z", 1]]"#),
        Err(ReplError::ParseError(ParseError::NotEnoughArgs {
            actual: 2,
            expected_min: 3
        }))
    );
    assert_eq!(
        repl.eval_str(r#"["$ref", "z"]"#),
        Err(ReplError::EvalError(EvalError::UndefinedIdent(Ident(
            "z".into()
        ))))
    );
    Ok(())
}

#[test]
fn it_evaluates_operands_for_effect_even_on_failure() -> Result<(), ReplError> {
    let mut repl = Repl::new();
    // Both operands of an operation are evaluated, left before right, so a
    // bind in the left operand sticks even when the operation then fails.
    assert_eq!(
        repl.eval_str(r#"["$add", ["$bind", "w", 7], 1]"#),
        Err(ReplError::EvalError(EvalError::UnexpectedTypeForOperation))
    );
    assert_eq!(repl.eval_str(r#"["$ref", "w"]"#)?, Value::Number(7));
    Ok(())
}
