use vstd::prelude::*;
use crate::runtime::{ArgCount, ValType};
use pest::Span;

verus! {

/// What went wrong while compiling a statement.
#[derive(Clone, Copy, Debug, PartialEq)]
pub enum CompileErrorKind<'a> {
    UnknownFunction(&'a str),
    WrongArgCount { got: ArgCount, expected: ArgCount },
    TypeMismatch { got: ValType, expected: ValType },
    UndefinedVariable(&'a str),
    UndefinedMacro(&'a str),
    BadMapMacro,
    ExpectedFunction,
    NoNestedList,
}

/// A compile error and the source region it points at.
#[derive(Clone, Copy, Debug, PartialEq)]
pub struct CompileError<'a> {
    pub kind: CompileErrorKind<'a>,
    pub span: Span<'a>,
}

/// The decimal digit `d`.
pub open spec fn digit_char(d: nat) -> char {
    "0123456789"@[d as int]
}

/// Decimal notation of `n`, without leading zeros.
pub open spec fn decimal(n: nat) -> Seq<char>
    decreases n,
{
    if n < 10 {
        seq![digit_char(n)]
    } else {
        decimal(n / 10) + seq![digit_char(n % 10)]
    }
}

pub open spec fn val_type_text(t: ValType) -> Seq<char> {
    match t {
        ValType::Number => "Number"@,
        ValType::List => "List"@,
    }
}

/// The human-readable message of an error kind.
pub open spec fn message<'a>(kind: CompileErrorKind<'a>) -> Seq<char> {
    match kind {
        CompileErrorKind::UnknownFunction(f) => "Unknown function '"@ + f@ + "'"@,
        CompileErrorKind::WrongArgCount { got, expected } => "Expected "@ + decimal(
            expected as nat,
        ) + " arguments but got "@ + decimal(got as nat),
        CompileErrorKind::TypeMismatch { got, expected } => "Expected type "@ + val_type_text(expected)
            + " but got "@ + val_type_text(got),
        CompileErrorKind::UndefinedVariable(v) => "Undefined variable '"@ + v@ + "'"@,
        CompileErrorKind::UndefinedMacro(n) => "Undefined macro '"@ + n@ + "'"@,
        CompileErrorKind::BadMapMacro => "The map! macro takes a function and then at least one list to passas an argument"@,
        CompileErrorKind::ExpectedFunction => "Expected a function"@,
        CompileErrorKind::NoNestedList => "Storing lists inside of lists is not allowed."@,
    }
}

/// Decimal text of a count.
fn count_text(n: usize) -> (r: String)
    ensures
        r@ == decimal(n as nat),
    decreases n,
{
    let digits = "0123456789";
    proof {
        reveal_strlit("0123456789");
    }
    let d = n % 10;
    let last = digits.substring_char(d, d + 1);
    proof {
        assert(last@ =~= seq![digit_char(d as nat)]);
    }
    if n < 10 {
        last.to_owned()
    } else {
        let r = count_text(n / 10);
        r.concat(last)
    }
}

fn type_text(t: ValType) -> (r: &'static str)
    ensures
        r@ == val_type_text(t),
{
    match t {
        ValType::Number => "Number",
        ValType::List => "List",
    }
}

fn quoted(prefix: &str, name: &str) -> (r: String)
    ensures
        r@ == prefix@ + name@ + "'"@,
{
    let mut r = prefix.to_owned();
    r.append(name);
    r.append("'");
    r
}

impl<'a> CompileError<'a> {
    /// The message of this error, without its location.
    pub fn as_msg(&self) -> (r: String)
        ensures
            r@ == message(self.kind),
    {
        match self.kind {
            CompileErrorKind::UnknownFunction(func) => quoted("Unknown function '", func),
            CompileErrorKind::WrongArgCount { got, expected } => {
                let mut r = "Expected ".to_owned();
                r.append(count_text(expected).as_str());
                r.append(" arguments but got ");
                r.append(count_text(got).as_str());
                r
            },
            CompileErrorKind::TypeMismatch { got, expected } => {
                let mut r = "Expected type ".to_owned();
                r.append(type_text(expected));
                r.append(" but got ");
                r.append(type_text(got));
                r
            },
            CompileErrorKind::UndefinedVariable(var) => quoted("Undefined variable '", var),
            CompileErrorKind::UndefinedMacro(name) => quoted("Undefined macro '", name),
            CompileErrorKind::BadMapMacro => "The map! macro takes a function and then at least one list to passas an argument".to_owned(),
            CompileErrorKind::ExpectedFunction => "Expected a function".to_owned(),
            CompileErrorKind::NoNestedList => "Storing lists inside of lists is not allowed.".to_owned(),
        }
    }
}

} // verus!
