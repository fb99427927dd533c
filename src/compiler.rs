use vstd::prelude::*;
use crate::ast::{
    BinaryOperator, Branch, CallModifier, Expression, FunctionDefinition, LocatedExpression,
    LocatedStatement, Statement, UnaryOperator,
};
use crate::builtins::{builtin_function, builtin_signature, same_text};
use crate::error::{CompileError, CompileErrorKind};
use crate::latex::{
    BinaryOperator as LatexBinaryOperator, Cond, CondModel, Latex, LatexModel,
    UnaryOperator as LatexUnaryOperator,
};
use crate::runtime::ValType;
use crate::scope::NameTable;
use pest::Span;

verus! {

/// Parameter types in order, and the return type.
pub struct FunctionSignature {
    pub args: Vec<ValType>,
    pub ret: ValType,
}

impl View for FunctionSignature {
    type V = (Seq<ValType>, ValType);

    open spec fn view(&self) -> (Seq<ValType>, ValType) {
        (self.args@, self.ret)
    }
}

fn copy_types(v: &Vec<ValType>) -> (r: Vec<ValType>)
    ensures
        r@ == v@,
{
    let mut r: Vec<ValType> = Vec::new();
    let mut i: usize = 0;
    while i < v.len()
        invariant
            i <= v@.len(),
            r@ == v@.subrange(0, i as int),
        decreases v@.len() - i,
    {
        r.push(v[i]);
        i = i + 1;
        proof {
            assert(r@ =~= v@.subrange(0, i as int));
        }
    }
    proof {
        assert(v@.subrange(0, i as int) =~= v@);
    }
    r
}

/// Compile-time state threaded through a whole program.
pub struct Context {
    /// Global variables, set up by the caller before compiling.
    pub variables: NameTable<ValType>,
    /// Parameters of the function whose body is being compiled.
    pub locals: NameTable<ValType>,
    /// Functions defined by earlier statements.
    pub defined_functions: NameTable<FunctionSignature>,
    /// Set only while a `map` expansion compiles its call.
    pub inside_map_macro: bool,
}

/// Mathematical value of a [`Context`].
pub struct ContextModel {
    pub variables: Map<Seq<char>, ValType>,
    pub locals: Map<Seq<char>, ValType>,
    pub functions: Map<Seq<char>, (Seq<ValType>, ValType)>,
    pub inside_map_macro: bool,
}

impl View for Context {
    type V = ContextModel;

    open spec fn view(&self) -> ContextModel {
        ContextModel {
            variables: self.variables@,
            locals: self.locals@,
            functions: self.defined_functions@.map_values(|s: FunctionSignature| s@),
            inside_map_macro: self.inside_map_macro,
        }
    }
}

impl Context {
    /// A context with no variables, no locals and no functions.
    pub fn new() -> (r: Self)
        ensures
            r@.variables == Map::<Seq<char>, ValType>::empty(),
            r@.locals == Map::<Seq<char>, ValType>::empty(),
            r@.functions == Map::<Seq<char>, (Seq<ValType>, ValType)>::empty(),
            !r@.inside_map_macro,
    {
        let r = Context {
            variables: NameTable::new(),
            locals: NameTable::new(),
            defined_functions: NameTable::new(),
            inside_map_macro: false,
        };
        proof {
            assert(r@.functions =~= Map::<Seq<char>, (Seq<ValType>, ValType)>::empty());
        }
        r
    }
}

impl Default for Context {
    fn default() -> (r: Self)
        ensures
            r@.variables == Map::<Seq<char>, ValType>::empty(),
            r@.locals == Map::<Seq<char>, ValType>::empty(),
            r@.functions == Map::<Seq<char>, (Seq<ValType>, ValType)>::empty(),
            !r@.inside_map_macro,
    {
        Self::new()
    }
}

// ---------------------------------------------------------------------------
// What compiling means, stated over the models.
// ---------------------------------------------------------------------------

/// Variable lookup: globals first, then the parameters in scope.
pub open spec fn variable_type(c: ContextModel, name: Seq<char>) -> Option<ValType> {
    if c.variables.contains_key(name) {
        Some(c.variables[name])
    } else if c.locals.contains_key(name) {
        Some(c.locals[name])
    } else {
        None
    }
}

/// Function lookup: user definitions first, then the builtin table; the
/// flag tells whether the signature is a builtin one.
pub open spec fn function_signature(c: ContextModel, name: Seq<char>) -> Option<
    ((Seq<ValType>, ValType), bool),
> {
    if c.functions.contains_key(name) {
        Some((c.functions[name], false))
    } else {
        match builtin_signature(name) {
            Some(s) => Some((s, true)),
            None => None,
        }
    }
}

pub open spec fn error_at<'a>(kind: CompileErrorKind<'a>, span: Span<'a>) -> CompileError<'a> {
    CompileError { kind, span }
}

/// Whether an argument of type `got` may stand where `expected` is declared.
pub open spec fn arg_accepted(inside_map: bool, got: ValType, expected: ValType) -> bool {
    got == expected || (inside_map && got == ValType::List && expected == ValType::Number)
}

/// Index of the first argument, from `from` on, whose type is not accepted.
pub open spec fn first_rejected<'a>(
    inside_map: bool,
    args: Seq<(Span<'a>, LatexModel, ValType)>,
    params: Seq<ValType>,
    from: int,
) -> Option<int>
    decreases args.len() - from,
{
    if from < 0 || from >= args.len() {
        None
    } else if !arg_accepted(inside_map, args[from].2, params[from]) {
        Some(from)
    } else {
        first_rejected(inside_map, args, params, from + 1)
    }
}

/// Result of calling `name` on arguments that are already compiled.
pub open spec fn call_result<'a>(
    c: ContextModel,
    span: Span<'a>,
    name: &'a str,
    args: Seq<(Span<'a>, LatexModel, ValType)>,
) -> Result<(LatexModel, ValType), CompileError<'a>> {
    match function_signature(c, name@) {
        None => Err(error_at(CompileErrorKind::UnknownFunction(name), span)),
        Some((sig, is_builtin)) => if args.len() != sig.0.len() {
            Err(
                error_at(
                    CompileErrorKind::WrongArgCount {
                        got: args.len() as usize,
                        expected: sig.0.len() as usize,
                    },
                    span,
                ),
            )
        } else {
            match first_rejected(c.inside_map_macro, args, sig.0, 0) {
                Some(i) => Err(
                    error_at(
                        CompileErrorKind::TypeMismatch { got: args[i].2, expected: sig.0[i] },
                        args[i].0,
                    ),
                ),
                None => Ok(
                    (
                        LatexModel::Call {
                            func: name@,
                            is_builtin,
                            args: args.map_values(|a: (Span<'a>, LatexModel, ValType)| a.1),
                        },
                        sig.1,
                    ),
                ),
            }
        },
    }
}

/// A compiled value checked against the expected type.
pub open spec fn expect_type<'a>(
    r: Result<(LatexModel, ValType), CompileError<'a>>,
    span: Span<'a>,
    expected: ValType,
) -> Result<LatexModel, CompileError<'a>> {
    match r {
        Err(e) => Err(e),
        Ok((l, t)) => if t != expected {
            Err(error_at(CompileErrorKind::TypeMismatch { got: t, expected }, span))
        } else {
            Ok(l)
        },
    }
}

/// The output operator of a source operator other than `Mod`.
pub open spec fn latex_binop(op: BinaryOperator) -> LatexBinaryOperator {
    match op {
        BinaryOperator::Add => LatexBinaryOperator::Add,
        BinaryOperator::Subtract => LatexBinaryOperator::Subtract,
        BinaryOperator::Multiply => LatexBinaryOperator::Multiply,
        _ => LatexBinaryOperator::Divide,
    }
}

/// Whether an expression avoids the reserved forms (the mapped-call
/// modifier and the map expression), which no compile may reach.
pub open spec fn supported<'a>(e: LocatedExpression<'a>) -> bool
    decreases e,
{
    match e.1 {
        Expression::Num(_) => true,
        Expression::Variable(_) => true,
        Expression::BinaryExpr { left, operator, right } => supported(*left) && supported(*right),
        Expression::UnaryExpr { val, operator } => supported(*val),
        Expression::Call { modifier, func, args } => modifier == CallModifier::NormalCall
            && all_supported(args@),
        Expression::List(items) => all_supported(items@),
        Expression::Piecewise { first, rest, default } => branch_supported(*first)
            && branches_supported(rest@) && supported(*default),
        Expression::MapExpression(_) => false,
    }
}

pub open spec fn all_supported<'a>(s: Seq<LocatedExpression<'a>>) -> bool
    decreases s,
{
    if s.len() == 0 {
        true
    } else {
        all_supported(s.subrange(0, s.len() - 1)) && supported(s[s.len() - 1])
    }
}

pub open spec fn branch_supported<'a>(b: Branch<'a>) -> bool
    decreases b,
{
    supported(b.cond_left) && supported(b.cond_right) && supported(b.val)
}

pub open spec fn branches_supported<'a>(s: Seq<Branch<'a>>) -> bool
    decreases s,
{
    if s.len() == 0 {
        true
    } else {
        branches_supported(s.subrange(0, s.len() - 1)) && branch_supported(s[s.len() - 1])
    }
}

/// Result of compiling one expression: its output tree and its type, or
/// the first error met, depth first and left to right. A binary operand of
/// the wrong type is reported at the operand's span, the operand of `!` at
/// the span of the whole expression.
pub open spec fn expr_result<'a>(c: ContextModel, e: LocatedExpression<'a>) -> Result<
    (LatexModel, ValType),
    CompileError<'a>,
>
    decreases e,
{
    let span = e.0;
    match e.1 {
        Expression::Num(val) => Ok((LatexModel::Num(val@), ValType::Number)),
        Expression::Variable(val) => match variable_type(c, val@) {
            Some(t) => Ok((LatexModel::Variable(val@), t)),
            None => Err(error_at(CompileErrorKind::UndefinedVariable(val), span)),
        },
        Expression::BinaryExpr { left, operator, right } => match expect_type(
            expr_result(c, *left),
            left.0,
            ValType::Number,
        ) {
            Err(err) => Err(err),
            Ok(lv) => match expect_type(expr_result(c, *right), right.0, ValType::Number) {
                Err(err) => Err(err),
                Ok(rv) => Ok(
                    (
                        if operator == BinaryOperator::Mod {
                            LatexModel::Call { func: "mod"@, is_builtin: true, args: seq![lv, rv] }
                        } else {
                            LatexModel::BinaryExpression {
                                left: Box::new(lv),
                                operator: latex_binop(operator),
                                right: Box::new(rv),
                            }
                        },
                        ValType::Number,
                    ),
                ),
            },
        },
        Expression::UnaryExpr { val, operator } => match expect_type(
            expr_result(c, *val),
            span,
            ValType::Number,
        ) {
            Err(err) => Err(err),
            Ok(v) => Ok(
                (
                    LatexModel::UnaryExpression { left: Box::new(v), operator: LatexUnaryOperator::Factorial },
                    ValType::Number,
                ),
            ),
        },
        Expression::Call { modifier, func, args } => match args_result(c, args@) {
            Err(err) => Err(err),
            Ok(compiled) => call_result(c, span, func, compiled),
        },
        Expression::List(items) => match list_result(c, items@) {
            Err(err) => Err(err),
            Ok(ls) => Ok((LatexModel::List(ls), ValType::List)),
        },
        Expression::Piecewise { first, rest, default } => match branch_result(c, *first) {
            Err(err) => Err(err),
            Ok(f) => match branches_result(c, rest@) {
                Err(err) => Err(err),
                Ok(rs) => match expect_type(expr_result(c, *default), default.0, ValType::Number) {
                    Err(err) => Err(err),
                    Ok(d) => Ok(
                        (
                            LatexModel::Piecewise {
                                first: Box::new(f),
                                rest: rs,
                                default: Box::new(d),
                            },
                            ValType::Number,
                        ),
                    ),
                },
            },
        },
        // Excluded by `supported`: no compile reaches a map expression.
        Expression::MapExpression(_) => Err(error_at(CompileErrorKind::ExpectedFunction, span)),
    }
}

/// Compiles call arguments left to right, keeping each one's span and type.
pub open spec fn args_result<'a>(c: ContextModel, s: Seq<LocatedExpression<'a>>) -> Result<
    Seq<(Span<'a>, LatexModel, ValType)>,
    CompileError<'a>,
>
    decreases s,
{
    if s.len() == 0 {
        Ok(Seq::empty())
    } else {
        match args_result(c, s.subrange(0, s.len() - 1)) {
            Err(err) => Err(err),
            Ok(done) => match expr_result(c, s[s.len() - 1]) {
                Err(err) => Err(err),
                Ok((l, t)) => Ok(done.push((s[s.len() - 1].0, l, t))),
            },
        }
    }
}

/// Compiles list elements left to right; an element of type List is
/// refused at its own span.
pub open spec fn list_result<'a>(c: ContextModel, s: Seq<LocatedExpression<'a>>) -> Result<
    Seq<LatexModel>,
    CompileError<'a>,
>
    decreases s,
{
    if s.len() == 0 {
        Ok(Seq::empty())
    } else {
        match list_result(c, s.subrange(0, s.len() - 1)) {
            Err(err) => Err(err),
            Ok(done) => match expr_result(c, s[s.len() - 1]) {
                Err(err) => Err(err),
                Ok((l, t)) => if t != ValType::Number {
                    Err(error_at(CompileErrorKind::NoNestedList, s[s.len() - 1].0))
                } else {
                    Ok(done.push(l))
                },
            },
        }
    }
}

/// Compiles one piecewise branch: its left side must be a number.
pub open spec fn branch_result<'a>(c: ContextModel, b: Branch<'a>) -> Result<
    CondModel,
    CompileError<'a>,
>
    decreases b,
{
    match expect_type(expr_result(c, b.cond_left), b.cond_left.0, ValType::Number) {
        Err(err) => Err(err),
        Ok(l) => match expr_result(c, b.cond_right) {
            Err(err) => Err(err),
            Ok((r, _)) => match expr_result(c, b.val) {
                Err(err) => Err(err),
                Ok((v, _)) => Ok(CondModel { left: l, op: b.cond, right: r, result: v }),
            },
        },
    }
}

pub open spec fn branches_result<'a>(c: ContextModel, s: Seq<Branch<'a>>) -> Result<
    Seq<CondModel>,
    CompileError<'a>,
>
    decreases s,
{
    if s.len() == 0 {
        Ok(Seq::empty())
    } else {
        match branches_result(c, s.subrange(0, s.len() - 1)) {
            Err(err) => Err(err),
            Ok(done) => match branch_result(c, s[s.len() - 1]) {
                Err(err) => Err(err),
                Ok(b) => Ok(done.push(b)),
            },
        }
    }
}

pub open spec fn latex_result<'a>(r: Result<(Latex, ValType), CompileError<'a>>) -> Result<
    (LatexModel, ValType),
    CompileError<'a>,
> {
    match r {
        Ok((l, t)) => Ok((l@, t)),
        Err(e) => Err(e),
    }
}

pub open spec fn compiled_args<'a>(args: Seq<(Span<'a>, Latex, ValType)>) -> Seq<
    (Span<'a>, LatexModel, ValType),
> {
    args.map_values(|a: (Span<'a>, Latex, ValType)| (a.0, a.1@, a.2))
}

// ---------------------------------------------------------------------------
// Resolvers
// ---------------------------------------------------------------------------

/// Looks a function up: user definitions first, then the builtin table.
/// Returns a copy of the signature and whether it is a builtin.
pub fn resolve_function(ctx: &Context, func: &str) -> (r: Option<(FunctionSignature, bool)>)
    ensures
        match r {
            Some((sig, is_builtin)) => function_signature(ctx@, func@) == Some((sig@, is_builtin)),
            None => function_signature(ctx@, func@) is None,
        },
{
    match ctx.defined_functions.get(func) {
        Some(f) => {
            let sig = FunctionSignature { args: copy_types(&f.args), ret: f.ret };
            Some((sig, false))
        },
        None => match builtin_function(func) {
            Some((args, ret)) => Some((FunctionSignature { args, ret }, true)),
            None => None,
        },
    }
}

/// Looks a variable up: globals first, then the parameters in scope.
pub fn resolve_variable<'c>(ctx: &'c Context, var: &str) -> (r: Option<&'c ValType>)
    ensures
        match r {
            Some(t) => variable_type(ctx@, var@) == Some(*t),
            None => variable_type(ctx@, var@) is None,
        },
{
    match ctx.variables.get(var) {
        Some(t) => Some(t),
        None => ctx.locals.get(var),
    }
}

// ---------------------------------------------------------------------------
// Call compiler
// ---------------------------------------------------------------------------

/// Compiles a call of `fname` on arguments that are already compiled: the
/// callee must resolve, the argument count must match the signature, and each
/// argument type must match its parameter (inside a `map` expansion a List
/// may stand for a Number). The result has the signature's return type.
pub fn compile_call<'a>(
    ctx: &mut Context,
    span: Span<'a>,
    fname: &'a str,
    args: Vec<(Span<'a>, Latex, ValType)>,
) -> (r: Result<(Latex, ValType), CompileError<'a>>)
    ensures
        *final(ctx) == *old(ctx),
        latex_result(r) == call_result(old(ctx)@, span, fname, compiled_args(args@)),
{
    match resolve_function(ctx, fname) {
        None => Err(CompileError { kind: CompileErrorKind::UnknownFunction(fname), span }),
        Some((func, is_builtin)) => {
            let got = args.len();
            let expect = func.args.len();
            if got != expect {
                return Err(
                    CompileError {
                        kind: CompileErrorKind::WrongArgCount { got, expected: expect },
                        span,
                    },
                );
            }
            let ghost cargs = compiled_args(args@);
            let ghost params = func.args@;
            let ghost inside = ctx.inside_map_macro;
            let mut rest = args;
            let mut out: Vec<Latex> = Vec::new();
            let mut i: usize = 0;
            while i < expect
                invariant
                    i <= expect,
                    expect == params.len(),
                    params == func.args@,
                    cargs.len() == expect,
                    cargs == compiled_args(args@),
                    inside == ctx.inside_map_macro,
                    function_signature(ctx@, fname@) == Some((func@, is_builtin)),
                    rest@ == args@.subrange(i as int, args@.len() as int),
                    out@.len() == i,
                    forall|j: int| 0 <= j < i ==> (#[trigger] out@[j])@ == cargs[j].1,
                    first_rejected(inside, cargs, params, 0) == first_rejected(
                        inside,
                        cargs,
                        params,
                        i as int,
                    ),
                decreases expect - i,
            {
                let (aspan, arg_latex, got_type) = rest.remove(0);
                let expect_type = func.args[i];
                proof {
                    assert(cargs[i as int].0 == aspan);
                    assert(cargs[i as int].1 == arg_latex@);
                    assert(cargs[i as int].2 == got_type);
                }
                let relaxed = ctx.inside_map_macro && got_type == ValType::List && expect_type
                    == ValType::Number;
                if !relaxed && got_type != expect_type {
                    assert(!arg_accepted(inside, got_type, expect_type));
                    assert(first_rejected(inside, cargs, params, i as int) == Some(i as int));
                    return Err(
                        CompileError {
                            kind: CompileErrorKind::TypeMismatch {
                                got: got_type,
                                expected: expect_type,
                            },
                            span: aspan,
                        },
                    );
                }
                out.push(arg_latex);
                i = i + 1;
            }
            let r = Latex::Call { func: fname.to_owned(), is_builtin, args: out };
            proof {
                assert(r@->Call_args =~= cargs.map_values(
                    |a: (Span<'a>, LatexModel, ValType)| a.1,
                ));
            }
            Ok((r, func.ret))
        },
    }
}

// ---------------------------------------------------------------------------
// Facts about the sequential parts of the semantics
// ---------------------------------------------------------------------------

proof fn lemma_all_supported<'a>(s: Seq<LocatedExpression<'a>>)
    requires
        all_supported(s),
    ensures
        forall|i: int| 0 <= i < s.len() ==> supported(#[trigger] s[i]),
    decreases s.len(),
{
    if s.len() > 0 {
        let p = s.subrange(0, s.len() - 1);
        lemma_all_supported(p);
        assert forall|i: int| 0 <= i < s.len() implies supported(#[trigger] s[i]) by {
            if i < s.len() - 1 {
                assert(p[i] == s[i]);
            }
        }
    }
}

proof fn lemma_branches_supported<'a>(s: Seq<Branch<'a>>)
    requires
        branches_supported(s),
    ensures
        forall|i: int| 0 <= i < s.len() ==> branch_supported(#[trigger] s[i]),
    decreases s.len(),
{
    if s.len() > 0 {
        let p = s.subrange(0, s.len() - 1);
        lemma_branches_supported(p);
        assert forall|i: int| 0 <= i < s.len() implies branch_supported(#[trigger] s[i]) by {
            if i < s.len() - 1 {
                assert(p[i] == s[i]);
            }
        }
    }
}

/// An error in a prefix of the arguments is the error of them all.
proof fn lemma_args_err<'a>(c: ContextModel, s: Seq<LocatedExpression<'a>>, j: int)
    requires
        0 <= j <= s.len(),
        args_result(c, s.subrange(0, j)) is Err,
    ensures
        args_result(c, s) == args_result(c, s.subrange(0, j)),
    decreases s.len(),
{
    if j == s.len() {
        assert(s.subrange(0, j) =~= s);
    } else {
        let p = s.subrange(0, s.len() - 1);
        assert(p.subrange(0, j) =~= s.subrange(0, j));
        lemma_args_err(c, p, j);
    }
}

proof fn lemma_list_err<'a>(c: ContextModel, s: Seq<LocatedExpression<'a>>, j: int)
    requires
        0 <= j <= s.len(),
        list_result(c, s.subrange(0, j)) is Err,
    ensures
        list_result(c, s) == list_result(c, s.subrange(0, j)),
    decreases s.len(),
{
    if j == s.len() {
        assert(s.subrange(0, j) =~= s);
    } else {
        let p = s.subrange(0, s.len() - 1);
        assert(p.subrange(0, j) =~= s.subrange(0, j));
        lemma_list_err(c, p, j);
    }
}

proof fn lemma_branches_err<'a>(c: ContextModel, s: Seq<Branch<'a>>, j: int)
    requires
        0 <= j <= s.len(),
        branches_result(c, s.subrange(0, j)) is Err,
    ensures
        branches_result(c, s) == branches_result(c, s.subrange(0, j)),
    decreases s.len(),
{
    if j == s.len() {
        assert(s.subrange(0, j) =~= s);
    } else {
        let p = s.subrange(0, s.len() - 1);
        assert(p.subrange(0, j) =~= s.subrange(0, j));
        lemma_branches_err(c, p, j);
    }
}

pub open spec fn latex_seq(v: Seq<Latex>) -> Seq<LatexModel> {
    v.map_values(|l: Latex| l@)
}

pub open spec fn cond_seq(v: Seq<Cond>) -> Seq<CondModel> {
    v.map_values(|c: Cond| c@)
}

// ---------------------------------------------------------------------------
// Expression compiler
// ---------------------------------------------------------------------------

/// Fails with a type mismatch at `span` unless `got` is `expect`.
pub fn check_type<'a>(span: Span<'a>, got: ValType, expect: ValType) -> (r: Result<
    (),
    CompileError<'a>,
>)
    ensures
        r == (if got != expect {
            Err(error_at(CompileErrorKind::TypeMismatch { got, expected: expect }, span))
        } else {
            Ok(())
        }),
{
    if got != expect {
        Err(CompileError { kind: CompileErrorKind::TypeMismatch { got, expected: expect }, span })
    } else {
        Ok(())
    }
}

/// The output operator of a source operator; `Mod` has none.
pub fn binop_to_latex(op: BinaryOperator) -> (r: LatexBinaryOperator)
    requires
        op != BinaryOperator::Mod,
    ensures
        r == latex_binop(op),
{
    match op {
        BinaryOperator::Add => LatexBinaryOperator::Add,
        BinaryOperator::Subtract => LatexBinaryOperator::Subtract,
        BinaryOperator::Multiply => LatexBinaryOperator::Multiply,
        BinaryOperator::Divide => LatexBinaryOperator::Divide,
        BinaryOperator::Mod => unreached(),
    }
}

pub fn unop_to_latex(op: UnaryOperator) -> (r: LatexUnaryOperator)
    ensures
        r == LatexUnaryOperator::Factorial,
{
    match op {
        UnaryOperator::Factorial => LatexUnaryOperator::Factorial,
    }
}

fn compile_args<'a>(ctx: &mut Context, args: Vec<LocatedExpression<'a>>) -> (r: Result<
    Vec<(Span<'a>, Latex, ValType)>,
    CompileError<'a>,
>)
    requires
        all_supported(args@),
    ensures
        *final(ctx) == *old(ctx),
        match r {
            Ok(v) => args_result(old(ctx)@, args@) == Ok::<_, CompileError<'a>>(compiled_args(v@)),
            Err(e) => args_result(old(ctx)@, args@) == Err::<Seq<(Span<'a>, LatexModel, ValType)>, _>(e),
        },
    decreases args,
{
    let ghost orig = args;
    let ghost ctx0 = *ctx;
    proof {
        lemma_all_supported(args@);
        assert(orig@.subrange(0, 0) =~= Seq::<LocatedExpression<'a>>::empty());
        assert(compiled_args(Seq::<(Span<'a>, Latex, ValType)>::empty()) =~= Seq::empty());
    }
    let mut rest = args;
    let n = rest.len();
    let mut out: Vec<(Span<'a>, Latex, ValType)> = Vec::new();
    let mut k: usize = 0;
    while k < n
        invariant
            orig == args,
            *ctx == ctx0,
            ctx0 == *old(ctx),
            n == orig@.len(),
            k <= n,
            rest@ == orig@.subrange(k as int, n as int),
            forall|i: int| 0 <= i < n ==> supported(#[trigger] orig@[i]),
            args_result(ctx0@, orig@.subrange(0, k as int)) == Ok::<_, CompileError<'a>>(
                compiled_args(out@),
            ),
        decreases n - k,
    {
        let x = rest.remove(0);
        proof {
            assert(x == orig@[k as int]);
            assert(decreases_to!(orig => orig@));
            assert(orig@.subrange(0, k + 1).subrange(0, k as int) =~= orig@.subrange(0, k as int));
            assert(orig@.subrange(0, k + 1)[k as int] == x);
        }
        let sp = x.0;
        match compile_expr(ctx, x) {
            Err(e) => {
                proof {
                    lemma_args_err(ctx0@, orig@, k + 1);
                }
                return Err(e);
            },
            Ok((l, t)) => {
                let ghost before = out@;
                out.push((sp, l, t));
                proof {
                    assert(compiled_args(out@) =~= compiled_args(before).push((sp, l@, t)));
                }
            },
        }
        k = k + 1;
    }
    proof {
        assert(orig@.subrange(0, n as int) =~= orig@);
    }
    Ok(out)
}

fn compile_list<'a>(ctx: &mut Context, items: Vec<LocatedExpression<'a>>) -> (r: Result<
    Vec<Latex>,
    CompileError<'a>,
>)
    requires
        all_supported(items@),
    ensures
        *final(ctx) == *old(ctx),
        match r {
            Ok(v) => list_result(old(ctx)@, items@) == Ok::<_, CompileError<'a>>(latex_seq(v@)),
            Err(e) => list_result(old(ctx)@, items@) == Err::<Seq<LatexModel>, _>(e),
        },
    decreases items,
{
    let ghost orig = items;
    let ghost ctx0 = *ctx;
    proof {
        lemma_all_supported(items@);
        assert(orig@.subrange(0, 0) =~= Seq::<LocatedExpression<'a>>::empty());
        assert(latex_seq(Seq::<Latex>::empty()) =~= Seq::empty());
    }
    let mut rest = items;
    let n = rest.len();
    let mut out: Vec<Latex> = Vec::new();
    let mut k: usize = 0;
    while k < n
        invariant
            orig == items,
            *ctx == ctx0,
            ctx0 == *old(ctx),
            n == orig@.len(),
            k <= n,
            rest@ == orig@.subrange(k as int, n as int),
            forall|i: int| 0 <= i < n ==> supported(#[trigger] orig@[i]),
            list_result(ctx0@, orig@.subrange(0, k as int)) == Ok::<_, CompileError<'a>>(
                latex_seq(out@),
            ),
        decreases n - k,
    {
        let x = rest.remove(0);
        proof {
            assert(x == orig@[k as int]);
            assert(decreases_to!(orig => orig@));
            assert(orig@.subrange(0, k + 1).subrange(0, k as int) =~= orig@.subrange(0, k as int));
            assert(orig@.subrange(0, k + 1)[k as int] == x);
        }
        let sp = x.0;
        match compile_expr(ctx, x) {
            Err(e) => {
                proof {
                    lemma_list_err(ctx0@, orig@, k + 1);
                }
                return Err(e);
            },
            Ok((l, t)) => {
                if t != ValType::Number {
                    proof {
                        lemma_list_err(ctx0@, orig@, k + 1);
                    }
                    return Err(CompileError { span: sp, kind: CompileErrorKind::NoNestedList });
                }
                let ghost before = out@;
                out.push(l);
                proof {
                    assert(latex_seq(out@) =~= latex_seq(before).push(l@));
                }
            },
        }
        k = k + 1;
    }
    proof {
        assert(orig@.subrange(0, n as int) =~= orig@);
    }
    Ok(out)
}

/// Compiles one piecewise branch: its left side must be a number, its right
/// side and result are compiled without a type constraint.
pub fn branch_to_cond<'a>(ctx: &mut Context, branch: Branch<'a>) -> (r: Result<
    Cond,
    CompileError<'a>,
>)
    requires
        branch_supported(branch),
    ensures
        *final(ctx) == *old(ctx),
        match r {
            Ok(c) => branch_result(old(ctx)@, branch) == Ok::<_, CompileError<'a>>(c@),
            Err(e) => branch_result(old(ctx)@, branch) == Err::<CondModel, _>(e),
        },
    decreases branch,
{
    let Branch { cond_left, cond, cond_right, val } = branch;
    let leftspan = cond_left.0;
    let left = match compile_expr(ctx, cond_left) {
        Err(e) => return Err(e),
        Ok((l, t)) => {
            match check_type(leftspan, t, ValType::Number) {
                Err(e) => return Err(e),
                Ok(()) => l,
            }
        },
    };
    let right = match compile_expr(ctx, cond_right) {
        Err(e) => return Err(e),
        Ok((r, _)) => r,
    };
    let result = match compile_expr(ctx, val) {
        Err(e) => return Err(e),
        Ok((v, _)) => v,
    };
    Ok(Cond { left, op: cond, right, result })
}

fn compile_branches<'a>(ctx: &mut Context, branches: Vec<Branch<'a>>) -> (r: Result<
    Vec<Cond>,
    CompileError<'a>,
>)
    requires
        branches_supported(branches@),
    ensures
        *final(ctx) == *old(ctx),
        match r {
            Ok(v) => branches_result(old(ctx)@, branches@) == Ok::<_, CompileError<'a>>(cond_seq(v@)),
            Err(e) => branches_result(old(ctx)@, branches@) == Err::<Seq<CondModel>, _>(e),
        },
    decreases branches,
{
    let ghost orig = branches;
    let ghost ctx0 = *ctx;
    proof {
        lemma_branches_supported(branches@);
        assert(orig@.subrange(0, 0) =~= Seq::<Branch<'a>>::empty());
        assert(cond_seq(Seq::<Cond>::empty()) =~= Seq::empty());
    }
    let mut rest = branches;
    let n = rest.len();
    let mut out: Vec<Cond> = Vec::new();
    let mut k: usize = 0;
    while k < n
        invariant
            orig == branches,
            *ctx == ctx0,
            ctx0 == *old(ctx),
            n == orig@.len(),
            k <= n,
            rest@ == orig@.subrange(k as int, n as int),
            forall|i: int| 0 <= i < n ==> branch_supported(#[trigger] orig@[i]),
            branches_result(ctx0@, orig@.subrange(0, k as int)) == Ok::<_, CompileError<'a>>(
                cond_seq(out@),
            ),
        decreases n - k,
    {
        let x = rest.remove(0);
        proof {
            assert(x == orig@[k as int]);
            assert(decreases_to!(orig => orig@));
            assert(orig@.subrange(0, k + 1).subrange(0, k as int) =~= orig@.subrange(0, k as int));
            assert(orig@.subrange(0, k + 1)[k as int] == x);
        }
        match branch_to_cond(ctx, x) {
            Err(e) => {
                proof {
                    lemma_branches_err(ctx0@, orig@, k + 1);
                }
                return Err(e);
            },
            Ok(c) => {
                let ghost before = out@;
                out.push(c);
                proof {
                    assert(cond_seq(out@) =~= cond_seq(before).push(c@));
                }
            },
        }
        k = k + 1;
    }
    proof {
        assert(orig@.subrange(0, n as int) =~= orig@);
    }
    Ok(out)
}

/// Compiles an expression to its output tree and its type, or to the first
/// error met, depth first and left to right. The context is left as it was.
pub fn compile_expr<'a>(ctx: &mut Context, expr: LocatedExpression<'a>) -> (r: Result<
    (Latex, ValType),
    CompileError<'a>,
>)
    requires
        supported(expr),
    ensures
        *final(ctx) == *old(ctx),
        latex_result(r) == expr_result(old(ctx)@, expr),
    decreases expr,
{
    let span = expr.0;
    match expr.1 {
        Expression::Num(val) => Ok((Latex::Num(val.to_owned()), ValType::Number)),
        Expression::Variable(val) => match resolve_variable(ctx, val) {
            Some(t) => Ok((Latex::Variable(val.to_owned()), *t)),
            None => Err(CompileError { kind: CompileErrorKind::UndefinedVariable(val), span }),
        },
        Expression::BinaryExpr { left, operator, right } => {
            let lspan = left.0;
            let rspan = right.0;
            let lv = match compile_expr(ctx, *left) {
                Err(e) => return Err(e),
                Ok((l, t)) => match check_type(lspan, t, ValType::Number) {
                    Err(e) => return Err(e),
                    Ok(()) => l,
                },
            };
            let rv = match compile_expr(ctx, *right) {
                Err(e) => return Err(e),
                Ok((r, t)) => match check_type(rspan, t, ValType::Number) {
                    Err(e) => return Err(e),
                    Ok(()) => r,
                },
            };
            let out = match operator {
                BinaryOperator::Mod => {
                    let r = Latex::Call {
                        func: "mod".to_owned(),
                        is_builtin: true,
                        args: vec![lv, rv],
                    };
                    proof {
                        assert(r@->Call_args =~= seq![lv@, rv@]);
                    }
                    r
                },
                _ => Latex::BinaryExpression {
                    left: Box::new(lv),
                    operator: binop_to_latex(operator),
                    right: Box::new(rv),
                },
            };
            Ok((out, ValType::Number))
        },
        Expression::UnaryExpr { val, operator } => {
            let v = match compile_expr(ctx, *val) {
                Err(e) => return Err(e),
                Ok((v, t)) => match check_type(span, t, ValType::Number) {
                    Err(e) => return Err(e),
                    Ok(()) => v,
                },
            };
            Ok(
                (
                    Latex::UnaryExpression { left: Box::new(v), operator: unop_to_latex(operator) },
                    ValType::Number,
                ),
            )
        },
        Expression::Call { modifier, func, args } => match modifier {
            CallModifier::NormalCall => match compile_args(ctx, args) {
                Err(e) => Err(e),
                Ok(compiled) => compile_call(ctx, span, func, compiled),
            },
            CallModifier::MapCall => unreached(),
        },
        Expression::List(values) => match compile_list(ctx, values) {
            Err(e) => Err(e),
            Ok(items) => {
                let r = Latex::List(items);
                proof {
                    assert(r@->List_0 =~= latex_seq(items@));
                }
                Ok((r, ValType::List))
            },
        },
        Expression::Piecewise { first, rest, default } => {
            let f = match branch_to_cond(ctx, *first) {
                Err(e) => return Err(e),
                Ok(f) => f,
            };
            let rs = match compile_branches(ctx, rest) {
                Err(e) => return Err(e),
                Ok(rs) => rs,
            };
            let dspan = default.0;
            let d = match compile_expr(ctx, *default) {
                Err(e) => return Err(e),
                Ok((d, t)) => match check_type(dspan, t, ValType::Number) {
                    Err(e) => return Err(e),
                    Ok(()) => d,
                },
            };
            let r = Latex::Piecewise { first: Box::new(f), rest: rs, default: Box::new(d) };
            proof {
                assert(r@->Piecewise_rest =~= cond_seq(rs@));
            }
            Ok((r, ValType::Number))
        },
        Expression::MapExpression(_) => unreached(),
    }
}

/// Compiles an expression and checks that it has type `expect`; a mismatch
/// is reported at `span`.
pub fn compile_expect<'a>(
    ctx: &mut Context,
    span: Span<'a>,
    expr: LocatedExpression<'a>,
    expect: ValType,
) -> (r: Result<Latex, CompileError<'a>>)
    requires
        supported(expr),
    ensures
        *final(ctx) == *old(ctx),
        match r {
            Ok(l) => expect_type(expr_result(old(ctx)@, expr), span, expect) == Ok::<
                _,
                CompileError<'a>,
            >(l@),
            Err(e) => expect_type(expr_result(old(ctx)@, expr), span, expect) == Err::<
                LatexModel,
                _,
            >(e),
        },
{
    match compile_expr(ctx, expr) {
        Err(e) => Err(e),
        Ok((s, t)) => match check_type(span, t, expect) {
            Err(e) => Err(e),
            Ok(()) => Ok(s),
        },
    }
}

// ---------------------------------------------------------------------------
// Macro expander
// ---------------------------------------------------------------------------

/// The context with the map flag raised.
pub open spec fn in_map(c: ContextModel) -> ContextModel {
    ContextModel { inside_map_macro: true, ..c }
}

/// What `map` does with its arguments: the first names the function (it is
/// not looked up as a variable), the others are compiled as they are, and
/// the call is then checked with List accepted for Number.
pub open spec fn map_result<'a>(
    c: ContextModel,
    span: Span<'a>,
    args: Seq<LocatedExpression<'a>>,
) -> Result<(LatexModel, ValType), CompileError<'a>> {
    if args.len() < 2 {
        Err(error_at(CompileErrorKind::BadMapMacro, span))
    } else {
        match args[0].1 {
            Expression::Variable(fname) => match args_result(
                c,
                args.subrange(1, args.len() as int),
            ) {
                Err(e) => Err(e),
                Ok(compiled) => call_result(in_map(c), span, fname, compiled),
            },
            _ => Err(error_at(CompileErrorKind::ExpectedFunction, args[0].0)),
        }
    }
}

/// The arguments of `map` after the first avoid the reserved forms.
pub open spec fn map_args_supported<'a>(args: Seq<LocatedExpression<'a>>) -> bool {
    args.len() >= 2 ==> all_supported(args.subrange(1, args.len() as int))
}

pub open spec fn macro_result<'a>(
    c: ContextModel,
    span: Span<'a>,
    name: &'a str,
    args: Seq<LocatedExpression<'a>>,
) -> Result<(LatexModel, ValType), CompileError<'a>> {
    if name@ == "map"@ {
        map_result(c, span, args)
    } else {
        Err(error_at(CompileErrorKind::UndefinedMacro(name), span))
    }
}

/// Expands `map(f, args...)`: at least two arguments, the first a bare name.
pub fn handle_map_macro<'a>(
    ctx: &mut Context,
    span: Span<'a>,
    args: Vec<LocatedExpression<'a>>,
) -> (r: Result<(Latex, ValType), CompileError<'a>>)
    requires
        map_args_supported(args@),
    ensures
        *final(ctx) == *old(ctx),
        latex_result(r) == map_result(old(ctx)@, span, args@),
{
    if args.len() < 2 {
        return Err(CompileError { span, kind: CompileErrorKind::BadMapMacro });
    }
    let mut rest = args;
    let (fspan, fexpr) = rest.remove(0);
    proof {
        assert(rest@ =~= args@.subrange(1, args@.len() as int));
    }
    match fexpr {
        Expression::Variable(fname) => {
            let call_args = match compile_args(ctx, rest) {
                Err(e) => return Err(e),
                Ok(a) => a,
            };
            let was_inside_map_macro = ctx.inside_map_macro;
            ctx.inside_map_macro = true;
            let r = compile_call(ctx, span, fname, call_args);
            ctx.inside_map_macro = was_inside_map_macro;
            r
        },
        _ => Err(CompileError { span: fspan, kind: CompileErrorKind::ExpectedFunction }),
    }
}

/// Dispatches a macro by name; only `map` exists.
pub fn handle_macro<'a>(
    ctx: &mut Context,
    span: Span<'a>,
    name: &'a str,
    args: Vec<LocatedExpression<'a>>,
) -> (r: Result<(Latex, ValType), CompileError<'a>>)
    requires
        name@ == "map"@ ==> map_args_supported(args@),
    ensures
        *final(ctx) == *old(ctx),
        latex_result(r) == macro_result(old(ctx)@, span, name, args@),
{
    if same_text(name, "map") {
        handle_map_macro(ctx, span, args)
    } else {
        Err(CompileError { span, kind: CompileErrorKind::UndefinedMacro(name) })
    }
}

// ---------------------------------------------------------------------------
// Statement compiler
// ---------------------------------------------------------------------------

/// `m` with the parameters bound in order, a later one overriding.
pub open spec fn with_params<'a>(
    m: Map<Seq<char>, ValType>,
    params: Seq<(&'a str, ValType)>,
) -> Map<Seq<char>, ValType>
    decreases params.len(),
{
    if params.len() == 0 {
        m
    } else {
        with_params(m, params.drop_last()).insert(params.last().0@, params.last().1)
    }
}

/// The context in which a function body is compiled.
pub open spec fn body_context<'a>(c: ContextModel, fdef: FunctionDefinition<'a>) -> ContextModel {
    ContextModel { locals: with_params(c.locals, fdef.args@), ..c }
}

pub open spec fn param_types<'a>(params: Seq<(&'a str, ValType)>) -> Seq<ValType> {
    params.map_values(|p: (&'a str, ValType)| p.1)
}

pub open spec fn param_names<'a>(params: Seq<(&'a str, ValType)>) -> Seq<Seq<char>> {
    params.map_values(|p: (&'a str, ValType)| p.0@)
}

pub open spec fn stmt_supported<'a>(st: LocatedStatement<'a>) -> bool {
    match st.1 {
        Statement::Expression(e) => supported((st.0, e)),
        Statement::FuncDef(_, body) => supported(body),
    }
}

/// Result of compiling a statement.
pub open spec fn stmt_result<'a>(c: ContextModel, st: LocatedStatement<'a>) -> Result<
    LatexModel,
    CompileError<'a>,
> {
    match st.1 {
        Statement::Expression(e) => match expr_result(c, (st.0, e)) {
            Ok((l, _)) => Ok(l),
            Err(err) => Err(err),
        },
        Statement::FuncDef(fdef, body) => match expr_result(body_context(c, fdef), body) {
            Err(err) => Err(err),
            Ok((b, t)) => if fdef.ret_annotation is Some && fdef.ret_annotation->0 != t {
                Err(
                    error_at(
                        CompileErrorKind::TypeMismatch {
                            got: t,
                            expected: fdef.ret_annotation->0,
                        },
                        body.0,
                    ),
                )
            } else {
                Ok(
                    LatexModel::FuncDef {
                        name: fdef.name@,
                        args: param_names(fdef.args@),
                        body: Box::new(b),
                    },
                )
            },
        },
    }
}

/// The context after compiling a statement. A definition registers its
/// parameter types and the body's inferred type; its parameters do not
/// outlive it. After an error the context is left as the error found it.
pub open spec fn stmt_context<'a>(c: ContextModel, st: LocatedStatement<'a>) -> ContextModel {
    match st.1 {
        Statement::Expression(_) => c,
        Statement::FuncDef(fdef, body) => match stmt_result(c, st) {
            Ok(_) => ContextModel {
                functions: c.functions.insert(
                    fdef.name@,
                    (param_types(fdef.args@), expr_result(body_context(c, fdef), body)->Ok_0.1),
                ),
                ..c
            },
            Err(_) => body_context(c, fdef),
        },
    }
}

/// Compiles one statement. A function definition compiles its body with its
/// parameters in scope, checks the return annotation, drops the parameters
/// again and registers the signature for later statements only.
pub fn compile_stmt<'a>(ctx: &mut Context, expr: LocatedStatement<'a>) -> (r: Result<
    Latex,
    CompileError<'a>,
>)
    requires
        stmt_supported(expr),
    ensures
        final(ctx)@ == stmt_context(old(ctx)@, expr),
        match r {
            Ok(l) => stmt_result(old(ctx)@, expr) == Ok::<_, CompileError<'a>>(l@),
            Err(e) => stmt_result(old(ctx)@, expr) == Err::<LatexModel, _>(e),
        },
{
    let s = expr.0;
    match expr.1 {
        Statement::Expression(e) => match compile_expr(ctx, (s, e)) {
            Ok((l, _)) => Ok(l),
            Err(err) => Err(err),
        },
        Statement::FuncDef(fdef, e) => {
            let ghost c = ctx@;
            let ghost b0 = ctx.locals.bindings();
            let mark = ctx.locals.len();
            let n = fdef.args.len();
            let mut i: usize = 0;
            while i < n
                invariant
                    n == fdef.args@.len(),
                    i <= n,
                    mark == b0.len(),
                    ctx.locals.spec_len() >= mark,
                    ctx.locals.bindings().subrange(0, mark as int) == b0,
                    ctx.locals@ == with_params(c.locals, fdef.args@.subrange(0, i as int)),
                    ctx@.variables == c.variables,
                    ctx@.functions == c.functions,
                    ctx.defined_functions == old(ctx).defined_functions,
                    ctx.inside_map_macro == c.inside_map_macro,
                decreases n - i,
            {
                let (aname, atype) = fdef.args[i];
                let ghost before = ctx.locals.bindings();
                ctx.locals.insert(aname, atype);
                proof {
                    let p = fdef.args@.subrange(0, i + 1);
                    assert(p.drop_last() =~= fdef.args@.subrange(0, i as int));
                    assert(ctx.locals.bindings().subrange(0, mark as int) =~= before.subrange(
                        0,
                        mark as int,
                    ));
                }
                i = i + 1;
            }
            proof {
                assert(fdef.args@.subrange(0, n as int) =~= fdef.args@);
                assert(ctx@ == body_context(c, fdef));
            }
            let span = e.0;
            let (body, ret) = match compile_expr(ctx, e) {
                Err(err) => return Err(err),
                Ok(v) => v,
            };
            if let Some(retann) = fdef.ret_annotation {
                if ret != retann {
                    return Err(
                        CompileError {
                            kind: CompileErrorKind::TypeMismatch { got: ret, expected: retann },
                            span,
                        },
                    );
                }
            }
            ctx.locals.truncate(mark);
            let mut types: Vec<ValType> = Vec::new();
            let mut names: Vec<String> = Vec::new();
            let mut j: usize = 0;
            while j < n
                invariant
                    n == fdef.args@.len(),
                    j <= n,
                    types@ == param_types(fdef.args@).subrange(0, j as int),
                    names@.map_values(|x: String| x@) == param_names(fdef.args@).subrange(
                        0,
                        j as int,
                    ),
                decreases n - j,
            {
                let (aname, atype) = fdef.args[j];
                let ghost nb = names@;
                types.push(atype);
                names.push(aname.to_owned());
                j = j + 1;
                proof {
                    assert(types@ =~= param_types(fdef.args@).subrange(0, j as int));
                    assert(names@.map_values(|x: String| x@) =~= nb.map_values(|x: String| x@).push(aname@));
                    assert(names@.map_values(|x: String| x@) =~= param_names(fdef.args@).subrange(0, j as int));
                }
            }
            proof {
                assert(types@ =~= param_types(fdef.args@));
                assert(names@.map_values(|x: String| x@) =~= param_names(fdef.args@));
                assert(ctx.locals.bindings() =~= b0);
                assert(ctx.locals@ == c.locals);
            }
            ctx.defined_functions.insert(fdef.name, FunctionSignature { args: types, ret });
            proof {
                assert(ctx@.functions =~= c.functions.insert(fdef.name@, (param_types(fdef.args@), ret)));
            }
            Ok(Latex::FuncDef { name: fdef.name.to_owned(), args: names, body: Box::new(body) })
        },
    }
}

} // verus!
