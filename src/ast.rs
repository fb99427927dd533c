use vstd::prelude::*;
use crate::latex::CompareOperator;
use crate::runtime::ValType;
use pest::Span;

verus! {

/// Arithmetic operators of the source language; `Mod` has no output operator
/// and is lowered to a call.
#[derive(Copy, Clone, Debug, PartialEq, Eq, Structural)]
pub enum BinaryOperator {
    Add,
    Subtract,
    Multiply,
    Divide,
    Mod,
}

#[derive(Copy, Clone, Debug, PartialEq, Eq, Structural)]
pub enum UnaryOperator {
    Factorial,
}

/// One branch of a piecewise expression: `cond_left <cond> cond_right : val`.
#[derive(Debug, PartialEq)]
pub struct Branch<'a> {
    pub cond_left: LocatedExpression<'a>,
    pub cond: CompareOperator,
    pub cond_right: LocatedExpression<'a>,
    pub val: LocatedExpression<'a>,
}

/// How a call is written: a plain call, or the reserved mapped-call form.
#[derive(Copy, Clone, Debug, PartialEq, Eq, Structural)]
pub enum CallModifier {
    MapCall,
    NormalCall,
}

/// An expression as the parser hands it over; each child carries its span.
#[derive(Debug, PartialEq)]
pub enum Expression<'a> {
    Num(&'a str),
    Variable(&'a str),
    BinaryExpr {
        left: Box<LocatedExpression<'a>>,
        operator: BinaryOperator,
        right: Box<LocatedExpression<'a>>,
    },
    UnaryExpr { val: Box<LocatedExpression<'a>>, operator: UnaryOperator },
    Call { modifier: CallModifier, func: &'a str, args: Vec<LocatedExpression<'a>> },
    List(Vec<LocatedExpression<'a>>),
    Piecewise {
        first: Box<Branch<'a>>,
        rest: Vec<Branch<'a>>,
        default: Box<LocatedExpression<'a>>,
    },
    MapExpression(Box<LocatedExpression<'a>>),
}

pub type LocatedExpression<'a> = (Span<'a>, Expression<'a>);

/// The head of a function definition: its name, its typed parameters in
/// order, and an optional annotation of the return type.
#[derive(Debug, PartialEq)]
pub struct FunctionDefinition<'a> {
    pub name: &'a str,
    pub args: Vec<(&'a str, ValType)>,
    pub ret_annotation: Option<ValType>,
}

/// A statement of a program.
#[derive(Debug, PartialEq)]
pub enum Statement<'a> {
    FuncDef(FunctionDefinition<'a>, LocatedExpression<'a>),
    Expression(Expression<'a>),
}

pub type LocatedStatement<'a> = (Span<'a>, Statement<'a>);

/// A bare arithmetic tree: calls on named arguments, literals and sums.
#[derive(Debug, PartialEq)]
pub enum AST<'a> {
    Call(&'a str, Vec<&'a str>),
    Num(&'a str),
    Add(Box<AST<'a>>, Box<AST<'a>>),
}

} // verus!
