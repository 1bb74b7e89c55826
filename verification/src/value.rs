use vstd::prelude::*;

verus! {

/// A runtime scalar of the language: null, a number, a text string, or a
/// boolean.  Numbers are 64-bit signed integers; values are immutable and
/// cheap to clone, and equality is structural (variant tag plus payload).
#[derive(Debug)]
pub enum Value {
    Null,
    Number(i64),
    String(String),
    Boolean(bool),
}

/// The mathematical model of a `Value`: the same four variants, with the
/// string payload abstracted to its sequence of characters.
pub enum ValueView {
    Null,
    Number(i64),
    String(Seq<char>),
    Boolean(bool),
}

impl View for Value {
    type V = ValueView;

    open spec fn view(&self) -> ValueView {
        match self {
            Value::Null => ValueView::Null,
            Value::Number(n) => ValueView::Number(*n),
            Value::String(s) => ValueView::String(s@),
            Value::Boolean(b) => ValueView::Boolean(*b),
        }
    }
}

impl Clone for Value {
    fn clone(&self) -> (r: Self)
        ensures
            r == *self,
    {
        match self {
            Value::Null => Value::Null,
            Value::Number(n) => Value::Number(*n),
            Value::String(s) => Value::String(s.clone()),
            Value::Boolean(b) => Value::Boolean(*b),
        }
    }
}

impl PartialEq for Value {
    /// Structural equality over the `Value` domain: equal variant tags and
    /// equal payloads; values of different variants are never equal.
    fn eq(&self, other: &Value) -> bool {
        match (self, other) {
            (Value::Null, Value::Null) => true,
            (Value::Number(a), Value::Number(b)) => a == b,
            (Value::String(a), Value::String(b)) => *a == *b,
            (Value::Boolean(a), Value::Boolean(b)) => a == b,
            _ => false,
        }
    }
}

impl vstd::std_specs::cmp::PartialEqSpecImpl for Value {
    open spec fn obeys_eq_spec() -> bool {
        true
    }

    open spec fn eq_spec(&self, other: &Value) -> bool {
        self@ == other@
    }
}

} // verus!
