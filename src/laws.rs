use vstd::prelude::*;
use crate::ast::{
    BinaryOperator, Branch, CallModifier, Expression, FunctionDefinition, LocatedExpression,
    LocatedStatement, Statement,
};
use crate::builtins::builtin_signature;
use crate::compiler::{
    args_result, body_context, branch_result, branches_result, error_at,
    expr_result, first_rejected, function_signature, list_result, map_result, stmt_context,
    stmt_result, variable_type, Context, ContextModel,
};
use crate::error::CompileErrorKind;
use crate::latex::{render, LatexModel};
use crate::runtime::ValType;
use pest::Span;

verus! {

proof fn lemma_args_len<'a>(c: ContextModel, s: Seq<LocatedExpression<'a>>)
    requires
        args_result(c, s) is Ok,
    ensures
        args_result(c, s)->Ok_0.len() == s.len(),
        forall|i: int|
            0 <= i < s.len() ==> (#[trigger] args_result(c, s)->Ok_0[i]).0 == s[i].0 && expr_result(
                c,
                s[i],
            ) == Ok::<_, crate::error::CompileError<'a>>(
                (args_result(c, s)->Ok_0[i].1, args_result(c, s)->Ok_0[i].2),
            ),
    decreases s.len(),
{
    if s.len() > 0 {
        let p = s.subrange(0, s.len() - 1);
        lemma_args_len(c, p);
        assert forall|i: int| 0 <= i < s.len() - 1 implies p[i] == s[i] by {}
    }
}

proof fn lemma_list_elements<'a>(c: ContextModel, s: Seq<LocatedExpression<'a>>)
    requires
        list_result(c, s) is Ok,
    ensures
        list_result(c, s)->Ok_0.len() == s.len(),
        forall|i: int|
            0 <= i < s.len() ==> expr_result(c, #[trigger] s[i]) == Ok::<
                _,
                crate::error::CompileError<'a>,
            >((list_result(c, s)->Ok_0[i], ValType::Number)),
    decreases s.len(),
{
    if s.len() > 0 {
        let p = s.subrange(0, s.len() - 1);
        lemma_list_elements(c, p);
        assert forall|i: int| 0 <= i < s.len() - 1 implies p[i] == s[i] by {}
    }
}

proof fn lemma_branch_op<'a>(c: ContextModel, b: Branch<'a>)
    requires
        branch_result(c, b) is Ok,
    ensures
        branch_result(c, b)->Ok_0.op == b.cond,
{
}

proof fn lemma_branches_ops<'a>(c: ContextModel, s: Seq<Branch<'a>>)
    requires
        branches_result(c, s) is Ok,
    ensures
        branches_result(c, s)->Ok_0.len() == s.len(),
        forall|i: int|
            0 <= i < s.len() ==> (#[trigger] branches_result(c, s)->Ok_0[i]).op == s[i].cond,
    decreases s.len(),
{
    if s.len() > 0 {
        let p = s.subrange(0, s.len() - 1);
        lemma_branches_ops(c, p);
        lemma_branch_op(c, s[s.len() - 1]);
        assert forall|i: int| 0 <= i < s.len() - 1 implies p[i] == s[i] by {}
    }
}

/// A numeric literal compiles to a number node holding the same text, of
/// type Number, and that node renders as the text itself.
pub proof fn law_literal_kept<'a>(c: ContextModel, span: Span<'a>, text: &'a str)
    ensures
        expr_result(c, (span, Expression::Num(text))) == Ok::<_, crate::error::CompileError<'a>>(
            (LatexModel::Num(text@), ValType::Number),
        ),
        render(LatexModel::Num(text@)) == text@,
{
}

/// Both operands of a binary operator must be numbers: a failing operand is
/// reported at its own span. `%` becomes a call of the builtin `mod` on the
/// two operands.
pub proof fn law_binary_operands<'a>(
    c: ContextModel,
    span: Span<'a>,
    left: LocatedExpression<'a>,
    operator: BinaryOperator,
    right: LocatedExpression<'a>,
)
    ensures
        ({
            let e = (
                span,
                Expression::BinaryExpr { left: Box::new(left), operator, right: Box::new(right) },
            );
            let lr = expr_result(c, left);
            let rr = expr_result(c, right);
            &&& (lr is Ok && lr->Ok_0.1 != ValType::Number) ==> expr_result(c, e) == Err::<
                (LatexModel, ValType),
                _,
            >(
                error_at(
                    CompileErrorKind::TypeMismatch { got: lr->Ok_0.1, expected: ValType::Number },
                    left.0,
                ),
            )
            &&& (lr is Ok && lr->Ok_0.1 == ValType::Number && rr is Ok && rr->Ok_0.1
                != ValType::Number) ==> expr_result(c, e) == Err::<(LatexModel, ValType), _>(
                error_at(
                    CompileErrorKind::TypeMismatch { got: rr->Ok_0.1, expected: ValType::Number },
                    right.0,
                ),
            )
            &&& (lr is Ok && lr->Ok_0.1 == ValType::Number && rr is Ok && rr->Ok_0.1
                == ValType::Number && operator == BinaryOperator::Mod) ==> expr_result(c, e)
                == Ok::<_, crate::error::CompileError<'a>>(
                (
                    LatexModel::Call {
                        func: "mod"@,
                        is_builtin: true,
                        args: seq![lr->Ok_0.0, rr->Ok_0.0],
                    },
                    ValType::Number,
                ),
            )
        }),
{
}

/// A call whose argument count differs from the resolved signature's
/// parameter count fails with both counts, at the call's span.
pub proof fn law_argument_count<'a>(
    c: ContextModel,
    span: Span<'a>,
    func: &'a str,
    args: Vec<LocatedExpression<'a>>,
    params: Seq<ValType>,
)
    requires
        function_signature(c, func@) matches Some((sig, _)) && sig.0 == params,
        params.len() != args@.len(),
        args_result(c, args@) is Ok,
    ensures
        expr_result(
            c,
            (span, Expression::Call { modifier: CallModifier::NormalCall, func, args }),
        ) == Err::<(LatexModel, ValType), _>(
            error_at(
                CompileErrorKind::WrongArgCount {
                    got: args@.len() as usize,
                    expected: params.len() as usize,
                },
                span,
            ),
        ),
{
    lemma_args_len(c, args@);
}

/// A list element of type List is refused at that element's span.
pub proof fn law_no_nested_list<'a>(
    c: ContextModel,
    span: Span<'a>,
    items: Vec<LocatedExpression<'a>>,
    k: int,
)
    requires
        0 <= k < items@.len(),
        list_result(c, items@.subrange(0, k)) is Ok,
        expr_result(c, items@[k]) matches Ok((_, ValType::List)),
    ensures
        expr_result(c, (span, Expression::List(items))) == Err::<(LatexModel, ValType), _>(
            error_at(CompileErrorKind::NoNestedList, items@[k].0),
        ),
{
    let s = items@;
    assert(s.subrange(0, k + 1).subrange(0, k) =~= s.subrange(0, k));
    assert(list_result(c, s.subrange(0, k + 1)) == Err::<Seq<LatexModel>, _>(
        error_at(CompileErrorKind::NoNestedList, s[k].0),
    ));
    lemma_list_err_prefix(c, s, k + 1);
}

proof fn lemma_list_err_prefix<'a>(c: ContextModel, s: Seq<LocatedExpression<'a>>, j: int)
    requires
        0 <= j <= s.len(),
        list_result(c, s.subrange(0, j)) is Err,
    ensures
        list_result(c, s) == list_result(c, s.subrange(0, j)),
    decreases s.len(),
{
    if j == s.len() {
        assert(s.subrange(0, j) =~= s);
    } else {
        let p = s.subrange(0, s.len() - 1);
        assert(p.subrange(0, j) =~= s.subrange(0, j));
        lemma_list_err_prefix(c, p, j);
    }
}

/// A list of numbers compiles to a list node with the elements in order.
pub proof fn law_list_order<'a>(c: ContextModel, span: Span<'a>, items: Vec<LocatedExpression<'a>>)
    requires
        expr_result(c, (span, Expression::List(items))) is Ok,
    ensures
        ({
            let m = expr_result(c, (span, Expression::List(items)))->Ok_0;
            &&& m.1 == ValType::List
            &&& m.0 is List
            &&& m.0->List_0.len() == items@.len()
            &&& forall|i: int|
                0 <= i < items@.len() ==> expr_result(c, #[trigger] items@[i]) == Ok::<
                    _,
                    crate::error::CompileError<'a>,
                >((m.0->List_0[i], ValType::Number))
        }),
{
    lemma_list_elements(c, items@);
}

/// The parameters of a function are gone once its definition is compiled:
/// after `f(a: Number) = a`, a bare `a` is an undefined variable (unless a
/// global or an outer scope defines it).
pub proof fn law_parameters_do_not_leak<'a>(
    c: ContextModel,
    span: Span<'a>,
    fdef: FunctionDefinition<'a>,
    body_span: Span<'a>,
    use_span: Span<'a>,
    a: &'a str,
)
    requires
        fdef.args@ == seq![(a, ValType::Number)],
        fdef.ret_annotation is None,
        !c.variables.contains_key(a@),
        !c.locals.contains_key(a@),
    ensures
        ({
            let def: LocatedStatement<'a> = (
                span,
                Statement::FuncDef(fdef, (body_span, Expression::Variable(a))),
            );
            &&& stmt_result(c, def) is Ok
            &&& expr_result(stmt_context(c, def), (use_span, Expression::Variable(a))) == Err::<
                (LatexModel, ValType),
                _,
            >(error_at(CompileErrorKind::UndefinedVariable(a), use_span))
        }),
{
    reveal_with_fuel(crate::compiler::with_params, 2);
    let bc = body_context(c, fdef);
    assert(fdef.args@.drop_last() =~= Seq::<(&'a str, ValType)>::empty());
    assert(bc.locals == c.locals.insert(a@, ValType::Number));
    assert(variable_type(bc, a@) == Some(ValType::Number));
}

/// A function is not visible inside its own body: a self-call there fails as
/// an unknown function, at the call's span.
pub proof fn law_no_self_recursion<'a>(
    c: ContextModel,
    span: Span<'a>,
    fdef: FunctionDefinition<'a>,
    call_span: Span<'a>,
    args: Vec<LocatedExpression<'a>>,
)
    requires
        !c.functions.contains_key(fdef.name@),
        builtin_signature(fdef.name@) is None,
        args_result(body_context(c, fdef), args@) is Ok,
    ensures
        stmt_result(
            c,
            (
                span,
                Statement::FuncDef(
                    fdef,
                    (
                        call_span,
                        Expression::Call {
                            modifier: CallModifier::NormalCall,
                            func: fdef.name,
                            args,
                        },
                    ),
                ),
            ),
        ) == Err::<LatexModel, _>(
            error_at(CompileErrorKind::UnknownFunction(fdef.name), call_span),
        ),
{
}

/// Inside `map`, a List argument is accepted where the function expects a
/// Number, and the call keeps the function's return type; the same argument
/// in a direct call is a type mismatch at the argument's span.
pub proof fn law_map_relaxes_lists<'a>(
    c: ContextModel,
    span: Span<'a>,
    map_args: Vec<LocatedExpression<'a>>,
    call_args: Vec<LocatedExpression<'a>>,
    f: &'a str,
    list_arg: LocatedExpression<'a>,
    ret: ValType,
    is_builtin: bool,
)
    requires
        function_signature(c, f@) == Some(((seq![ValType::Number], ret), is_builtin)),
        expr_result(c, list_arg) matches Ok((_, ValType::List)),
        !c.inside_map_macro,
        map_args@.len() == 2,
        map_args@[0].1 == Expression::Variable(f),
        map_args@[1] == list_arg,
        call_args@ == seq![list_arg],
    ensures
        map_result(c, span, map_args@) == Ok::<_, crate::error::CompileError<'a>>(
            (
                LatexModel::Call {
                    func: f@,
                    is_builtin,
                    args: seq![expr_result(c, list_arg)->Ok_0.0],
                },
                ret,
            ),
        ),
        expr_result(
            c,
            (span, Expression::Call { modifier: CallModifier::NormalCall, func: f, args: call_args }),
        ) == Err::<(LatexModel, ValType), _>(
            error_at(
                CompileErrorKind::TypeMismatch { got: ValType::List, expected: ValType::Number },
                list_arg.0,
            ),
        ),
{
    reveal_with_fuel(args_result, 2);
    let rest = map_args@.subrange(1, 2);
    assert(rest.subrange(0, 0) =~= Seq::<LocatedExpression<'a>>::empty());
    assert(call_args@.subrange(0, 0) =~= Seq::<LocatedExpression<'a>>::empty());
    let compiled = args_result(c, rest)->Ok_0;
    assert(compiled.map_values(|a: (Span<'a>, LatexModel, ValType)| a.1) =~= seq![
        expr_result(c, list_arg)->Ok_0.0,
    ]);
    let m = crate::compiler::in_map(c);
    assert(function_signature(m, f@) == function_signature(c, f@));
    assert(first_rejected(true, compiled, seq![ValType::Number], 1) is None);
    assert(first_rejected(true, compiled, seq![ValType::Number], 0) is None);
    let direct = args_result(c, call_args@)->Ok_0;
    assert(first_rejected(false, direct, seq![ValType::Number], 0) == Some(0int));
}

/// `map` needs at least two arguments, and its first must be a bare name.
pub proof fn law_map_shape<'a>(c: ContextModel, span: Span<'a>, args: Seq<LocatedExpression<'a>>)
    ensures
        args.len() < 2 ==> map_result(c, span, args) == Err::<(LatexModel, ValType), _>(
            error_at(CompileErrorKind::BadMapMacro, span),
        ),
        args.len() >= 2 && !(args[0].1 is Variable) ==> map_result(c, span, args) == Err::<
            (LatexModel, ValType),
            _,
        >(error_at(CompileErrorKind::ExpectedFunction, args[0].0)),
{
}

/// A piecewise expression keeps its branches in order, each with its own
/// comparator, and is typed Number.
pub proof fn law_piecewise_order<'a>(
    c: ContextModel,
    span: Span<'a>,
    first: Branch<'a>,
    rest: Vec<Branch<'a>>,
    default: LocatedExpression<'a>,
)
    requires
        expr_result(
            c,
            (
                span,
                Expression::Piecewise { first: Box::new(first), rest, default: Box::new(default) },
            ),
        ) is Ok,
    ensures
        ({
            let m = expr_result(
                c,
                (
                    span,
                    Expression::Piecewise {
                        first: Box::new(first),
                        rest,
                        default: Box::new(default),
                    },
                ),
            )->Ok_0;
            &&& m.1 == ValType::Number
            &&& m.0 is Piecewise
            &&& m.0->Piecewise_first.op == first.cond
            &&& m.0->Piecewise_rest.len() == rest@.len()
            &&& forall|i: int|
                0 <= i < rest@.len() ==> (#[trigger] m.0->Piecewise_rest[i]).op == rest@[i].cond
        }),
{
    lemma_branches_ops(c, rest@);
    lemma_branch_op(c, first);
}

/// Compiling is deterministic: two contexts with the same contents give the
/// same output and leave the same context behind.
pub proof fn law_deterministic<'a>(ctx1: &Context, ctx2: &Context, st: LocatedStatement<'a>)
    requires
        ctx1@ == ctx2@,
    ensures
        stmt_result(ctx1@, st) == stmt_result(ctx2@, st),
        stmt_context(ctx1@, st) == stmt_context(ctx2@, st),
{
}

} // verus!
