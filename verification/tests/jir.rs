use json_monkey_rs::ast::{AstNode, Ident};
use json_monkey_rs::jir::{JirParser, ParseError};
use json_monkey_rs::value::Value;

#[test]
fn it_parses_addition() -> Result<(), ParseError> {
    let actual = format!("{:?}", JirParser::parse_json(r#"["$add", 1, 2]"#)?);
    let expected = format!(
        "{:?}",
        AstNode::Add(
            Box::new(AstNode::Literal(Value::Number(1))),
            Box::new(AstNode::Literal(Value::Number(2)))
        )
    );
    assert_eq!(actual, expected);
    Ok(())
}

#[test]
fn it_parses_subtraction() -> Result<(), ParseError> {
    let actual = format!("{:?}", JirParser::parse_json(r#"["$sub", 1, 2]"#)?);
    let expected = format!(
        "{:?}",
        AstNode::Sub(
            Box::new(AstNode::Literal(Value::Number(1))),
            Box::new(AstNode::Literal(Value::Number(2)))
        )
    );
    assert_eq!(actual, expected);
    Ok(())
}

#[test]
fn it_parses_binding() -> Result<(), ParseError> {
    let actual = format!("{:?}", JirParser::parse_json(r#"["$bind", "foo", 1]"#)?);
    let expected = format!(
        "{:?}",
        AstNode::Bind(
            Ident("foo".into()),
            Box::new(AstNode::Literal(Value::Number(1)))
        )
    );
    assert_eq!(actual, expected);
    Ok(())
}

#[test]
fn it_parses_ref() -> Result<(), ParseError> {
    let actual = format!("{:?}", JirParser::parse_json(r#"["$ref", "foo"]"#)?);
    let expected = format!("{:?}", AstNode::Ident(Ident("foo".into()),));
    assert_eq!(actual, expected);
    Ok(())
}

#[test]
fn it_parses_if_expression() -> Result<(), ParseError> {
    let actual = format!("{:?}", JirParser::parse_json(r#"["$if", true, 1, 2]"#)?);
    let expected = format!(
        "{:?}",
        AstNode::If(
            Box::new(AstNode::Literal(Value::Boolean(true))),
            Box::new(AstNode::Literal(Value::Number(1))),
            Some(Box::new(AstNode::Literal(Value::Number(2))))
        )
    );
    assert_eq!(actual, expected);
    Ok(())
}

#[test]
fn it_parses_while_expression() -> Result<(), ParseError> {
    let actual = format!("{:?}", JirParser::parse_json(r#"["$while", true, 1]"#)?);
    let expected = format!(
        "{:?}",
        AstNode::While(
            Box::new(AstNode::Literal(Value::Boolean(true))),
            Box::new(AstNode::Literal(Value::Number(1))),
        )
    );
    assert_eq!(actual, expected);
    Ok(())
}

#[test]
fn it_parses_if_expression_without_false_branch() -> Result<(), ParseError> {
    let actual = format!("{:?}", JirParser::parse_json(r#"["$if", true, 1]"#)?);
    let expected = format!(
        "{:?}",
        AstNode::If(
            Box::new(AstNode::Literal(Value::Boolean(true))),
            Box::new(AstNode::Literal(Value::Number(1))),
            None,
        )
    );
    assert_eq!(actual, expected);
    Ok(())
}

#[test]
fn it_parses_boolean_operation() -> Result<(), ParseError> {
    let actual = format!("{:?}", JirParser::parse_json(r#"["$and", true, false]"#)?);
    let expected = format!(
        "{:?}",
        AstNode::And(
            Box::new(AstNode::Literal(Value::Boolean(true))),
            Box::new(AstNode::Literal(Value::Boolean(false))),
        )
    );
    assert_eq!(actual, expected);

    let actual = format!("{:?}", JirParser::parse_json(r#"["$or", true, false]"#)?);
    let expected = format!(
        "{:?}",
        AstNode::Or(
            Box::new(AstNode::Literal(Value::Boolean(true))),
            Box::new(AstNode::Literal(Value::Boolean(false))),
        )
    );
    assert_eq!(actual, expected);

    let actual = format!("{:?}", JirParser::parse_json(r#"["$not", true]"#)?);
    let expected = format!(
        "{:?}",
        AstNode::Not(Box::new(AstNode::Literal(Value::Boolean(true))))
    );
    assert_eq!(actual, expected);

    Ok(())
}

#[test]
fn it_parses_comparison_operation() -> Result<(), ParseError> {
    let actual = format!("{:?}", JirParser::parse_json(r#"["$eq", 1, 2]"#)?);
    let expected = format!(
        "{:?}",
        AstNode::Eq(
            Box::new(AstNode::Literal(Value::Number(1))),
            Box::new(AstNode::Literal(Value::Number(2))),
        )
    );
    assert_eq!(actual, expected);

    let actual = format!("{:?}", JirParser::parse_json(r#"["$notEq", 1, 2]"#)?);
    let expected = format!(
        "{:?}",
        AstNode::NotEq(
            Box::new(AstNode::Literal(Value::Number(1))),
            Box::new(AstNode::Literal(Value::Number(2))),
        )
    );
    assert_eq!(actual, expected);

    Ok(())
}

#[test]
fn it_parses_scalar_literals() -> Result<(), ParseError> {
    assert_eq!(
        JirParser::parse_json("1")?,
        AstNode::Literal(Value::Number(1))
    );
    assert_eq!(
        JirParser::parse_json("-7")?,
        AstNode::Literal(Value::Number(-7))
    );
    assert_eq!(
        JirParser::parse_json("null")?,
        AstNode::Literal(Value::Null)
    );
    assert_eq!(
        JirParser::parse_json(r#""hi""#)?,
        AstNode::Literal(Value::String("hi".into()))
    );
    assert_eq!(
        JirParser::parse_json("true")?,
        AstNode::Literal(Value::Boolean(true))
    );
    assert_eq!(
        JirParser::parse_json("9223372036854775807")?,
        AstNode::Literal(Value::Number(i64::MAX))
    );
    Ok(())
}

#[test]
fn it_rejects_invalid_json() {
    assert_eq!(JirParser::parse_json("["), Err(ParseError::InvalidJson));
    assert_eq!(JirParser::parse_json(""), Err(ParseError::InvalidJson));
}

#[test]
fn it_rejects_numbers_outside_the_range() {
    assert_eq!(
        JirParser::parse_json("9223372036854775808"),
        Err(ParseError::UnsupportedNumberLiteral)
    );
    assert_eq!(
        JirParser::parse_json("1.5"),
        Err(ParseError::UnsupportedNumberLiteral)
    );
}

#[test]
fn it_rejects_arity_violations_before_operands() {
    assert_eq!(
        JirParser::parse_json(r#"["$add", 1]"#),
        Err(ParseError::NotEnoughArgs {
            actual: 2,
            expected_min: 3
        })
    );
    assert_eq!(
        JirParser::parse_json(r#"["$add", 1, 2, 3]"#),
        Err(ParseError::TooManyArgs {
            actual: 4,
            expected_max: 3
        })
    );
    assert_eq!(
        JirParser::parse_json(r#"["$not", true, false]"#),
        Err(ParseError::TooManyArgs {
            actual: 3,
            expected_max: 2
        })
    );
    assert_eq!(
        JirParser::parse_json(r#"["$if", true]"#),
        Err(ParseError::NotEnoughArgs {
            actual: 2,
            expected_min: 3
        })
    );
    // The malformed operand is never looked at: the arity error comes first.
    assert_eq!(
        JirParser::parse_json(r#"["$add", {}]"#),
        Err(ParseError::NotEnoughArgs {
            actual: 2,
            expected_min: 3
        })
    );
}

#[test]
fn it_expects_an_identifier_name() {
    assert_eq!(
        JirParser::parse_json(r#"["$bind", 1, 2]"#),
        Err(ParseError::IdentExpected)
    );
    assert_eq!(
        JirParser::parse_json(r#"["$ref", 1]"#),
        Err(ParseError::IdentExpected)
    );
}

#[test]
fn it_rejects_unsupported_forms() {
    assert_eq!(
        JirParser::parse_json(r#"["$foo", 1]"#),
        Err(ParseError::UnsupportedForm)
    );
    assert_eq!(JirParser::parse_json("[]"), Err(ParseError::UnsupportedForm));
    assert_eq!(
        JirParser::parse_json("[1, 2]"),
        Err(ParseError::UnsupportedForm)
    );
    assert_eq!(JirParser::parse_json("{}"), Err(ParseError::UnsupportedForm));
}
