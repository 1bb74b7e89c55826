use vstd::prelude::*;

use crate::ast::{AstNode, AstView, Ident};
use serde_json::Value as JsonValue;

use crate::json::{decode_json, json_of, json_view, views_of, JsonView};
use crate::value::{Value, ValueView};

verus! {

/// An error raised while parsing a JSON text into a program tree.
#[derive(Debug, Clone, Copy, PartialEq, Eq, Structural)]
pub enum ParseError {
    InvalidJson,
    IdentExpected,
    TooManyArgs { actual: usize, expected_max: usize },
    NotEnoughArgs { actual: usize, expected_min: usize },
    UnsupportedNumberLiteral,
    UnsupportedForm,
}

/// An operand that must be a bare identifier name: a JSON string, and
/// nothing else.
pub open spec fn spec_parse_ident(j: JsonView) -> Result<Seq<char>, ParseError> {
    match j {
        JsonView::Str(s) => Ok(s),
        _ => Err(ParseError::IdentExpected),
    }
}

/// The arity rule of a compound form: `actual` counts the whole form, tag
/// included, and must lie between the bounds, a missing bound not binding.
pub open spec fn spec_form_range(actual: nat, min: Option<usize>, max: Option<usize>) -> Result<
    (),
    ParseError,
> {
    let expected_min = match min {
        Some(m) => m,
        None => usize::MIN,
    };
    let expected_max = match max {
        Some(m) => m,
        None => usize::MAX,
    };
    if actual < expected_min {
        Err(ParseError::NotEnoughArgs { actual: actual as usize, expected_min })
    } else if actual > expected_max {
        Err(ParseError::TooManyArgs { actual: actual as usize, expected_max })
    } else {
        Ok(())
    }
}

/// The classification of a decoded JSON document into a program tree: a
/// scalar is a literal, an array is a compound form, and a bare object is
/// no program fragment.
pub open spec fn spec_parse_expression(j: JsonView) -> Result<AstView, ParseError>
    decreases j, 0int,
{
    match j {
        JsonView::Arr(elems) => spec_parse_compound(elems),
        JsonView::Num(opt) => match opt {
            Some(i) => Ok(AstView::Literal(ValueView::Number(i))),
            None => Err(ParseError::UnsupportedNumberLiteral),
        },
        JsonView::Null => Ok(AstView::Literal(ValueView::Null)),
        JsonView::Str(s) => Ok(AstView::Literal(ValueView::String(s))),
        JsonView::Bool(b) => Ok(AstView::Literal(ValueView::Boolean(b))),
        JsonView::Obj => Err(ParseError::UnsupportedForm),
    }
}

/// A form whose tag takes exactly two operands, each an expression.
pub open spec fn spec_parse_binary(
    elems: Seq<JsonView>,
    make: spec_fn(AstView, AstView) -> AstView,
) -> Result<AstView, ParseError>
    decreases elems, 0int,
{
    match spec_form_range(elems.len(), Some(3), Some(3)) {
        Err(e) => Err(e),
        Ok(_) => match spec_parse_expression(elems[1]) {
            Err(e) => Err(e),
            Ok(l) => match spec_parse_expression(elems[2]) {
                Err(e) => Err(e),
                Ok(r) => Ok(make(l, r)),
            },
        },
    }
}

/// The dispatch on a compound form's tag.  The form must not be empty, its
/// first element must be a string, the arity of the tag is checked before
/// any operand is parsed, and an unrecognized tag is unsupported.
pub open spec fn spec_parse_compound(elems: Seq<JsonView>) -> Result<AstView, ParseError>
    decreases elems, 1int,
{
    if elems.len() == 0 {
        Err(ParseError::UnsupportedForm)
    } else {
        match elems[0] {
            JsonView::Str(tag) => {
                if tag == "$add"@ {
                    spec_parse_binary(elems, |l, r| AstView::Add(Box::new(l), Box::new(r)))
                } else if tag == "$sub"@ {
                    spec_parse_binary(elems, |l, r| AstView::Sub(Box::new(l), Box::new(r)))
                } else if tag == "$bind"@ {
                    match spec_form_range(elems.len(), Some(3), Some(3)) {
                        Err(e) => Err(e),
                        Ok(_) => match spec_parse_ident(elems[1]) {
                            Err(e) => Err(e),
                            Ok(name) => match spec_parse_expression(elems[2]) {
                                Err(e) => Err(e),
                                Ok(expr) => Ok(AstView::Bind(name, Box::new(expr))),
                            },
                        },
                    }
                } else if tag == "$ref"@ {
                    match spec_form_range(elems.len(), Some(2), Some(2)) {
                        Err(e) => Err(e),
                        Ok(_) => match spec_parse_ident(elems[1]) {
                            Err(e) => Err(e),
                            Ok(name) => Ok(AstView::Ident(name)),
                        },
                    }
                } else if tag == "$if"@ {
                    match spec_form_range(elems.len(), Some(3), Some(4)) {
                        Err(e) => Err(e),
                        Ok(_) => match spec_parse_expression(elems[1]) {
                            Err(e) => Err(e),
                            Ok(cond) => match spec_parse_expression(elems[2]) {
                                Err(e) => Err(e),
                                Ok(then) => if elems.len() == 4 {
                                    match spec_parse_expression(elems[3]) {
                                        Err(e) => Err(e),
                                        Ok(els) => Ok(
                                            AstView::If(
                                                Box::new(cond),
                                                Box::new(then),
                                                Some(Box::new(els)),
                                            ),
                                        ),
                                    }
                                } else {
                                    Ok(AstView::If(Box::new(cond), Box::new(then), None))
                                },
                            },
                        },
                    }
                } else if tag == "$while"@ {
                    spec_parse_binary(elems, |l, r| AstView::While(Box::new(l), Box::new(r)))
                } else if tag == "$and"@ {
                    spec_parse_binary(elems, |l, r| AstView::And(Box::new(l), Box::new(r)))
                } else if tag == "$or"@ {
                    spec_parse_binary(elems, |l, r| AstView::Or(Box::new(l), Box::new(r)))
                } else if tag == "$not"@ {
                    match spec_form_range(elems.len(), Some(2), Some(2)) {
                        Err(e) => Err(e),
                        Ok(_) => match spec_parse_expression(elems[1]) {
                            Err(e) => Err(e),
                            Ok(x) => Ok(AstView::Not(Box::new(x))),
                        },
                    }
                } else if tag == "$eq"@ {
                    spec_parse_binary(elems, |l, r| AstView::Eq(Box::new(l), Box::new(r)))
                } else if tag == "$notEq"@ {
                    spec_parse_binary(elems, |l, r| AstView::NotEq(Box::new(l), Box::new(r)))
                } else {
                    Err(ParseError::UnsupportedForm)
                }
            },
            _ => Err(ParseError::UnsupportedForm),
        }
    }
}

/// What parsing a whole text yields: a decode failure is invalid JSON, and
/// a decoded document is classified by `spec_parse_expression`.
pub open spec fn spec_parse(s: Seq<char>) -> Result<AstView, ParseError> {
    match json_of(s) {
        None => Err(ParseError::InvalidJson),
        Some(j) => spec_parse_expression(j),
    }
}

/// The model of a parse outcome.
pub open spec fn parse_result_view(r: Result<AstNode, ParseError>) -> Result<AstView, ParseError> {
    match r {
        Ok(n) => Ok(n@),
        Err(e) => Err(e),
    }
}

/// The JIR parser: JSON text in, program tree or parse error out.  Parsing
/// is pure and total: it evaluates nothing and touches no environment.
pub struct JirParser {}

impl JirParser {
    /// Parses a JSON text into a program tree, exactly as `spec_parse`
    /// says: text that is not JSON is rejected as invalid, and a decoded
    /// document is classified by the grammar.
    pub fn parse_json(json_str: &str) -> (r: Result<AstNode, ParseError>)
        ensures
            parse_result_view(r) == spec_parse(json_str@),
    {
        let value = match decode_json(json_str) {
            Ok(v) => v,
            Err(e) => return Err(ParseError::InvalidJson),
        };
        Self::parse_expression(&value)
    }

    fn parse_expression(json: &JsonValue) -> (r: Result<AstNode, ParseError>)
        ensures
            parse_result_view(r) == spec_parse_expression(json_view(*json)),
        decreases json_view(*json), 0int,
    {
        if let Some(vs) = json.as_array() {
            Self::parse_compound(vs)
        } else if json.is_number() {
            match json.as_i64() {
                Some(i) => Ok(AstNode::Literal(Value::Number(i))),
                None => Err(ParseError::UnsupportedNumberLiteral),
            }
        } else if json.is_null() {
            Ok(AstNode::Literal(Value::Null))
        } else if let Some(s) = json.as_str() {
            Ok(AstNode::Literal(Value::String(s.to_owned())))
        } else if let Some(b) = json.as_bool() {
            Ok(AstNode::Literal(Value::Boolean(b)))
        } else {
            Err(ParseError::UnsupportedForm)
        }
    }

    fn parse_compound(vs: &Vec<JsonValue>) -> (r: Result<AstNode, ParseError>)
        ensures
            parse_result_view(r) == spec_parse_compound(views_of(vs@)),
        decreases views_of(vs@), 1int,
    {
        if vs.len() == 0 {
            return Err(ParseError::UnsupportedForm);
        }
        let tag = match vs[0].as_str() {
            Some(s) => s,
            None => {
                return Err(ParseError::UnsupportedForm);
            },
        };
        if *tag == *"$add" {
            if let Err(e) = Self::assert_form_range(vs, Some(3), Some(3)) {
                return Err(e);
            }
            let lhs = match Self::parse_expression(&vs[1]) {
                Ok(n) => n,
                Err(e) => return Err(e),
            };
            let rhs = match Self::parse_expression(&vs[2]) {
                Ok(n) => n,
                Err(e) => return Err(e),
            };
            Ok(AstNode::Add(Box::new(lhs), Box::new(rhs)))
        } else if *tag == *"$sub" {
            if let Err(e) = Self::assert_form_range(vs, Some(3), Some(3)) {
                return Err(e);
            }
            let lhs = match Self::parse_expression(&vs[1]) {
                Ok(n) => n,
                Err(e) => return Err(e),
            };
            let rhs = match Self::parse_expression(&vs[2]) {
                Ok(n) => n,
                Err(e) => return Err(e),
            };
            Ok(AstNode::Sub(Box::new(lhs), Box::new(rhs)))
        } else if *tag == *"$bind" {
            if let Err(e) = Self::assert_form_range(vs, Some(3), Some(3)) {
                return Err(e);
            }
            let name = match Self::parse_ident(&vs[1]) {
                Ok(id) => id,
                Err(e) => return Err(e),
            };
            let expr = match Self::parse_expression(&vs[2]) {
                Ok(n) => n,
                Err(e) => return Err(e),
            };
            Ok(AstNode::Bind(name, Box::new(expr)))
        } else if *tag == *"$ref" {
            if let Err(e) = Self::assert_form_range(vs, Some(2), Some(2)) {
                return Err(e);
            }
            let name = match Self::parse_ident(&vs[1]) {
                Ok(id) => id,
                Err(e) => return Err(e),
            };
            Ok(AstNode::Ident(name))
        } else if *tag == *"$if" {
            if let Err(e) = Self::assert_form_range(vs, Some(3), Some(4)) {
                return Err(e);
            }
            let cond = match Self::parse_expression(&vs[1]) {
                Ok(n) => n,
                Err(e) => return Err(e),
            };
            let true_branch = match Self::parse_expression(&vs[2]) {
                Ok(n) => n,
                Err(e) => return Err(e),
            };
            let false_branch = if vs.len() == 4 {
                match Self::parse_expression(&vs[3]) {
                    Ok(n) => Some(Box::new(n)),
                    Err(e) => return Err(e),
                }
            } else {
                None
            };
            Ok(AstNode::If(Box::new(cond), Box::new(true_branch), false_branch))
        } else if *tag == *"$while" {
            if let Err(e) = Self::assert_form_range(vs, Some(3), Some(3)) {
                return Err(e);
            }
            let cond = match Self::parse_expression(&vs[1]) {
                Ok(n) => n,
                Err(e) => return Err(e),
            };
            let body = match Self::parse_expression(&vs[2]) {
                Ok(n) => n,
                Err(e) => return Err(e),
            };
            Ok(AstNode::While(Box::new(cond), Box::new(body)))
        } else if *tag == *"$and" {
            if let Err(e) = Self::assert_form_range(vs, Some(3), Some(3)) {
                return Err(e);
            }
            let lhs = match Self::parse_expression(&vs[1]) {
                Ok(n) => n,
                Err(e) => return Err(e),
            };
            let rhs = match Self::parse_expression(&vs[2]) {
                Ok(n) => n,
                Err(e) => return Err(e),
            };
            Ok(AstNode::And(Box::new(lhs), Box::new(rhs)))
        } else if *tag == *"$or" {
            if let Err(e) = Self::assert_form_range(vs, Some(3), Some(3)) {
                return Err(e);
            }
            let lhs = match Self::parse_expression(&vs[1]) {
                Ok(n) => n,
                Err(e) => return Err(e),
            };
            let rhs = match Self::parse_expression(&vs[2]) {
                Ok(n) => n,
                Err(e) => return Err(e),
            };
            Ok(AstNode::Or(Box::new(lhs), Box::new(rhs)))
        } else if *tag == *"$not" {
            if let Err(e) = Self::assert_form_range(vs, Some(2), Some(2)) {
                return Err(e);
            }
            let x = match Self::parse_expression(&vs[1]) {
                Ok(n) => n,
                Err(e) => return Err(e),
            };
            Ok(AstNode::Not(Box::new(x)))
        } else if *tag == *"$eq" {
            if let Err(e) = Self::assert_form_range(vs, Some(3), Some(3)) {
                return Err(e);
            }
            let lhs = match Self::parse_expression(&vs[1]) {
                Ok(n) => n,
                Err(e) => return Err(e),
            };
            let rhs = match Self::parse_expression(&vs[2]) {
                Ok(n) => n,
                Err(e) => return Err(e),
            };
            Ok(AstNode::Eq(Box::new(lhs), Box::new(rhs)))
        } else if *tag == *"$notEq" {
            if let Err(e) = Self::assert_form_range(vs, Some(3), Some(3)) {
                return Err(e);
            }
            let lhs = match Self::parse_expression(&vs[1]) {
                Ok(n) => n,
                Err(e) => return Err(e),
            };
            let rhs = match Self::parse_expression(&vs[2]) {
                Ok(n) => n,
                Err(e) => return Err(e),
            };
            Ok(AstNode::NotEq(Box::new(lhs), Box::new(rhs)))
        } else {
            Err(ParseError::UnsupportedForm)
        }
    }

    fn parse_ident(v: &JsonValue) -> (r: Result<Ident, ParseError>)
        ensures
            match r {
                Ok(id) => spec_parse_ident(json_view(*v)) == Ok::<Seq<char>, ParseError>(id@),
                Err(e) => spec_parse_ident(json_view(*v)) == Err::<Seq<char>, ParseError>(e),
            },
    {
        match v.as_str() {
            Some(s) => Ok(Ident(s.to_owned())),
            None => Err(ParseError::IdentExpected),
        }
    }

    fn assert_form_range(
        vs: &Vec<JsonValue>,
        min: Option<usize>,
        max: Option<usize>,
    ) -> (r: Result<(), ParseError>)
        ensures
            r == spec_form_range(vs@.len(), min, max),
    {
        let expected_min = match min {
            Some(m) => m,
            None => usize::MIN,
        };
        let expected_max = match max {
            Some(m) => m,
            None => usize::MAX,
        };
        let actual = vs.len();
        if actual < expected_min {
            Err(ParseError::NotEnoughArgs { actual, expected_min })
        } else if actual > expected_max {
            Err(ParseError::TooManyArgs { actual, expected_max })
        } else {
            Ok(())
        }
    }
}

} // verus!
