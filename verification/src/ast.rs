use vstd::prelude::*;

use crate::value::{Value, ValueView};

verus! {

/// A name used as a binding key.  Two identifiers are equal exactly when
/// their underlying text is equal.
#[derive(Debug, Hash, Eq)]
pub struct Ident(pub String);

impl View for Ident {
    type V = Seq<char>;

    open spec fn view(&self) -> Seq<char> {
        self.0@
    }
}

impl Clone for Ident {
    fn clone(&self) -> (r: Self)
        ensures
            r == *self,
    {
        Ident(self.0.clone())
    }
}

impl PartialEq for Ident {
    fn eq(&self, other: &Ident) -> bool {
        self.0 == other.0
    }
}

impl vstd::std_specs::cmp::PartialEqSpecImpl for Ident {
    open spec fn obeys_eq_spec() -> bool {
        true
    }

    open spec fn eq_spec(&self, other: &Ident) -> bool {
        self@ == other@
    }
}

/// The program representation: a tree of tagged variants, each node owning
/// its children exclusively.  The tree is built once by the parser and never
/// mutated afterwards.
#[derive(Debug, PartialEq)]
pub enum AstNode {
    Literal(Value),
    Ident(Ident),
    Add(Box<AstNode>, Box<AstNode>),
    Sub(Box<AstNode>, Box<AstNode>),
    And(Box<AstNode>, Box<AstNode>),
    Or(Box<AstNode>, Box<AstNode>),
    Not(Box<AstNode>),
    Eq(Box<AstNode>, Box<AstNode>),
    NotEq(Box<AstNode>, Box<AstNode>),
    If(Box<AstNode>, Box<AstNode>, Option<Box<AstNode>>),
    While(Box<AstNode>, Box<AstNode>),
    Bind(Ident, Box<AstNode>),
}

/// The mathematical model of an `AstNode`: the same tree, with every name
/// and every string payload abstracted to its sequence of characters.
pub enum AstView {
    Literal(ValueView),
    Ident(Seq<char>),
    Add(Box<AstView>, Box<AstView>),
    Sub(Box<AstView>, Box<AstView>),
    And(Box<AstView>, Box<AstView>),
    Or(Box<AstView>, Box<AstView>),
    Not(Box<AstView>),
    Eq(Box<AstView>, Box<AstView>),
    NotEq(Box<AstView>, Box<AstView>),
    If(Box<AstView>, Box<AstView>, Option<Box<AstView>>),
    While(Box<AstView>, Box<AstView>),
    Bind(Seq<char>, Box<AstView>),
}

pub open spec fn ast_view(a: AstNode) -> AstView
    decreases a,
{
    match a {
        AstNode::Literal(v) => AstView::Literal(v@),
        AstNode::Ident(id) => AstView::Ident(id@),
        AstNode::Add(l, r) => AstView::Add(Box::new(ast_view(*l)), Box::new(ast_view(*r))),
        AstNode::Sub(l, r) => AstView::Sub(Box::new(ast_view(*l)), Box::new(ast_view(*r))),
        AstNode::And(l, r) => AstView::And(Box::new(ast_view(*l)), Box::new(ast_view(*r))),
        AstNode::Or(l, r) => AstView::Or(Box::new(ast_view(*l)), Box::new(ast_view(*r))),
        AstNode::Not(x) => AstView::Not(Box::new(ast_view(*x))),
        AstNode::Eq(l, r) => AstView::Eq(Box::new(ast_view(*l)), Box::new(ast_view(*r))),
        AstNode::NotEq(l, r) => AstView::NotEq(Box::new(ast_view(*l)), Box::new(ast_view(*r))),
        AstNode::If(c, t, e) => AstView::If(
            Box::new(ast_view(*c)),
            Box::new(ast_view(*t)),
            match e {
                Some(b) => Some(Box::new(ast_view(*b))),
                None => None,
            },
        ),
        AstNode::While(c, b) => AstView::While(Box::new(ast_view(*c)), Box::new(ast_view(*b))),
        AstNode::Bind(id, e) => AstView::Bind(id@, Box::new(ast_view(*e))),
    }
}

impl View for AstNode {
    type V = AstView;

    open spec fn view(&self) -> AstView {
        ast_view(*self)
    }
}

} // verus!
