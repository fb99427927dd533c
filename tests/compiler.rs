use desmos_lang::ast::{
    BinaryOperator, Branch, CallModifier, Expression, FunctionDefinition, Statement,
    UnaryOperator,
};
use desmos_lang::compiler::{compile_expr, compile_stmt, Context};
use desmos_lang::error::{CompileError, CompileErrorKind};
use desmos_lang::latex::{
    BinaryOperator as LatexBinaryOperator, CompareOperator, Cond, Latex,
    UnaryOperator as LatexUnaryOperator,
};
use desmos_lang::runtime::ValType;
use pest::Span;

fn new_ctx() -> Context {
    Context::new()
}

fn compile(exp: Expression) -> Result<Latex, CompileError> {
    compile_with_ctx(&mut new_ctx(), exp)
}

fn compile_with_ctx<'a>(ctx: &mut Context, exp: Expression<'a>) -> Result<Latex, CompileError<'a>> {
    Ok(compile_expr(ctx, (spn(), exp))?.0)
}

fn compile_statement(stmt: Statement) -> Result<Latex, CompileError> {
    compile_stmt_with_ctx(&mut new_ctx(), stmt)
}

fn compile_stmt_with_ctx<'a>(
    ctx: &mut Context,
    stmt: Statement<'a>,
) -> Result<Latex, CompileError<'a>> {
    compile_stmt(ctx, (spn(), stmt))
}

fn check_stmt(stmt: Statement, r: Latex) {
    assert_eq!(compile_statement(stmt).unwrap(), r);
}

fn check(exp: Expression, r: Latex) {
    assert_eq!(compile(exp).unwrap(), r);
}

fn comp_with_var<'a>(
    v: &str,
    vtype: ValType,
    exp: Expression<'a>,
) -> Result<Latex, CompileError<'a>> {
    let mut ctx = new_ctx();
    ctx.variables.insert(v, vtype);
    compile_with_ctx(&mut ctx, exp)
}

fn check_with_var(v: &str, vtype: ValType, exp: Expression, r: Latex) {
    assert_eq!(comp_with_var(v, vtype, exp), Ok(r));
}

fn spn<'a>() -> Span<'a> {
    Span::new("", 0, 0).unwrap()
}

#[test]
fn compiler_num() {
    check(Expression::Num("5"), Latex::Num("5".to_string()));
    check(Expression::Num("2.3"), Latex::Num("2.3".to_string()));
}

#[test]
fn compiler_variable() {
    check_with_var(
        "a",
        ValType::Number,
        Expression::Variable("a"),
        Latex::Variable("a".to_string()),
    );
    check_with_var(
        "abc",
        ValType::Number,
        Expression::Variable("abc"),
        Latex::Variable("abc".to_string()),
    );
}

#[test]
fn variable_resolution() {
    assert_eq!(
        compile(Expression::Variable("")).unwrap_err().kind,
        CompileErrorKind::UndefinedVariable("")
    );
    assert_eq!(
        compile(Expression::Variable("abc")).unwrap_err().kind,
        CompileErrorKind::UndefinedVariable("abc")
    );
}

#[test]
fn compiler_binary_expr() {
    check(
        Expression::BinaryExpr {
            left: Box::new((spn(), Expression::Num("1"))),
            operator: BinaryOperator::Add,
            right: Box::new((spn(), Expression::Num("2"))),
        },
        Latex::BinaryExpression {
            left: Box::new(Latex::Num("1".to_string())),
            operator: LatexBinaryOperator::Add,
            right: Box::new(Latex::Num("2".to_string())),
        },
    )
}

#[test]
fn test_mod() {
    check(
        Expression::BinaryExpr {
            left: Box::new((spn(), Expression::Num("1"))),
            operator: BinaryOperator::Mod,
            right: Box::new((spn(), Expression::Num("2"))),
        },
        Latex::Call {
            func: "mod".to_string(),
            is_builtin: true,
            args: vec![Latex::Num("1".to_string()), Latex::Num("2".to_string())],
        },
    );
}

#[test]
fn compiler_unary_expression() {
    check(
        Expression::UnaryExpr {
            val: Box::new((spn(), Expression::Num("2"))),
            operator: UnaryOperator::Factorial,
        },
        Latex::UnaryExpression {
            left: Box::new(Latex::Num("2".to_string())),
            operator: LatexUnaryOperator::Factorial,
        },
    );
}

#[test]
fn compiler_call_resolution() {
    check(
        Expression::Call {
            modifier: CallModifier::NormalCall,
            func: "sin",
            args: vec![(spn(), Expression::Num("1"))],
        },
        Latex::Call {
            func: "sin".to_string(),
            is_builtin: true,
            args: vec![Latex::Num("1".to_string())],
        },
    );
    assert_eq!(
        compile(Expression::Call {
            modifier: CallModifier::NormalCall,
            func: "abc",
            args: vec![],
        })
        .unwrap_err()
        .kind,
        CompileErrorKind::UnknownFunction("abc")
    );
}

#[test]
fn compiler_argc_validation() {
    assert_eq!(
        compile(Expression::Call {
            modifier: CallModifier::NormalCall,
            func: "sin",
            args: vec![],
        })
        .unwrap_err()
        .kind,
        CompileErrorKind::WrongArgCount { got: 0, expected: 1 }
    );
    assert_eq!(
        compile(Expression::Call {
            modifier: CallModifier::NormalCall,
            func: "sin",
            args: vec![(spn(), Expression::Num("1")), (spn(), Expression::Num("2"))]
        })
        .unwrap_err()
        .kind,
        CompileErrorKind::WrongArgCount { got: 2, expected: 1 }
    );
}

#[test]
fn compiler_call_arg_checking() {
    assert_eq!(
        compile(Expression::Call {
            modifier: CallModifier::NormalCall,
            func: "sin",
            args: vec![(spn(), Expression::List(vec![(spn(), Expression::Num("1"))]))]
        })
        .unwrap_err()
        .kind,
        CompileErrorKind::TypeMismatch { got: ValType::List, expected: ValType::Number }
    );
}

#[test]
fn compiler_binexp_typecheck() {
    assert_eq!(
        compile(Expression::BinaryExpr {
            left: Box::new((spn(), Expression::List(vec![(spn(), Expression::Num("1"))]))),
            operator: BinaryOperator::Add,
            right: Box::new((spn(), Expression::Num("2")))
        })
        .unwrap_err()
        .kind,
        CompileErrorKind::TypeMismatch { got: ValType::List, expected: ValType::Number }
    );
}

#[test]
fn compiler_unary_typecheck() {
    assert_eq!(
        compile(Expression::UnaryExpr {
            val: Box::new((spn(), Expression::List(vec![(spn(), Expression::Num("1"))]))),
            operator: UnaryOperator::Factorial,
        })
        .unwrap_err()
        .kind,
        CompileErrorKind::TypeMismatch { got: ValType::List, expected: ValType::Number }
    );
}

#[test]
fn list() {
    check(
        Expression::List(vec![(spn(), Expression::Num("1"))]),
        Latex::List(vec![Latex::Num("1".to_string())]),
    );
    check(
        Expression::List(vec![(spn(), Expression::Num("1")), (spn(), Expression::Num("2"))]),
        Latex::List(vec![Latex::Num("1".to_string()), Latex::Num("2".to_string())]),
    );
}

#[test]
fn list_typecheck() {
    assert_eq!(
        compile(Expression::List(vec![(
            spn(),
            Expression::List(vec![(spn(), Expression::Num("1"))])
        )])),
        Err(CompileError { span: spn(), kind: CompileErrorKind::NoNestedList })
    );
}

#[test]
fn expression_stmt() {
    check_stmt(Statement::Expression(Expression::Num("1")), Latex::Num("1".to_string()));
}

#[test]
fn funcdef_single_arg() {
    check_stmt(
        Statement::FuncDef(
            FunctionDefinition {
                name: "abc",
                args: vec![("def", ValType::Number)],
                ret_annotation: None,
            },
            (spn(), Expression::Num("1")),
        ),
        Latex::FuncDef {
            name: "abc".to_string(),
            args: vec!["def".to_string()],
            body: Box::new(Latex::Num("1".to_string())),
        },
    );
}

#[test]
fn funcdef_many_args() {
    check_stmt(
        Statement::FuncDef(
            FunctionDefinition {
                name: "f",
                args: vec![("abc", ValType::List), ("def", ValType::Number)],
                ret_annotation: None,
            },
            (spn(), Expression::Num("1")),
        ),
        Latex::FuncDef {
            name: "f".to_string(),
            args: vec!["abc".to_string(), "def".to_string()],
            body: Box::new(Latex::Num("1".to_string())),
        },
    );
}

#[test]
fn funcdef_can_use_args() {
    let mut ctx = new_ctx();
    assert_eq!(
        compile_stmt_with_ctx(
            &mut ctx,
            Statement::FuncDef(
                FunctionDefinition {
                    name: "f",
                    args: vec![("a", ValType::Number)],
                    ret_annotation: None,
                },
                (spn(), Expression::Variable("a")),
            )
        ),
        Ok(Latex::FuncDef {
            name: "f".to_string(),
            args: vec!["a".to_string()],
            body: Box::new(Latex::Variable("a".to_string())),
        },)
    );
    // The parameter is no longer in scope.
    assert_eq!(
        compile_with_ctx(&mut ctx, Expression::Variable("a")),
        Err(CompileError { span: spn(), kind: CompileErrorKind::UndefinedVariable("a") })
    )
}

#[test]
fn funcdef_ret_annotation_checked() {
    assert_eq!(
        compile_statement(Statement::FuncDef(
            FunctionDefinition {
                name: "f",
                args: vec![("a", ValType::Number)],
                ret_annotation: Some(ValType::List),
            },
            (spn(), Expression::Num("1")),
        ))
        .unwrap_err(),
        CompileError {
            kind: CompileErrorKind::TypeMismatch { got: ValType::Number, expected: ValType::List },
            span: spn()
        },
    );
}

#[test]
fn funcdef_arg_leave_scope() {
    let mut ctx = new_ctx();
    compile_stmt_with_ctx(
        &mut ctx,
        Statement::FuncDef(
            FunctionDefinition {
                name: "f",
                args: vec![("a", ValType::Number)],
                ret_annotation: None,
            },
            (spn(), Expression::Variable("a")),
        ),
    )
    .unwrap();
    assert_eq!(
        compile_stmt_with_ctx(&mut ctx, Statement::Expression(Expression::Variable("a")))
            .unwrap_err(),
        CompileError { kind: CompileErrorKind::UndefinedVariable("a"), span: spn() }
    );
}

#[test]
fn funcdef_func_callable() {
    let mut ctx = new_ctx();
    compile_stmt_with_ctx(
        &mut ctx,
        Statement::FuncDef(
            FunctionDefinition {
                name: "f",
                args: vec![("a", ValType::Number)],
                ret_annotation: None,
            },
            (spn(), Expression::Variable("a")),
        ),
    )
    .unwrap();
    compile_stmt_with_ctx(
        &mut ctx,
        Statement::Expression(Expression::Call {
            modifier: CallModifier::NormalCall,
            func: "f",
            args: vec![(spn(), Expression::Num("1"))],
        }),
    )
    .unwrap();
}

#[test]
fn funcdef_func_argslen() {
    let mut ctx = new_ctx();
    compile_stmt_with_ctx(
        &mut ctx,
        Statement::FuncDef(
            FunctionDefinition { name: "f", args: vec![], ret_annotation: None },
            (spn(), Expression::Num("1")),
        ),
    )
    .unwrap();
    assert_eq!(
        compile_stmt_with_ctx(
            &mut ctx,
            Statement::Expression(Expression::Call {
                modifier: CallModifier::NormalCall,
                func: "f",
                args: vec![(spn(), Expression::Num("1"))],
            }),
        )
        .unwrap_err(),
        CompileError { span: spn(), kind: CompileErrorKind::WrongArgCount { got: 1, expected: 0 } }
    );
}

#[test]
fn funcdef_args_typecheck() {
    let mut ctx = new_ctx();
    compile_stmt_with_ctx(
        &mut ctx,
        Statement::FuncDef(
            FunctionDefinition {
                name: "f",
                args: vec![("a", ValType::Number)],
                ret_annotation: None,
            },
            (spn(), Expression::Num("1")),
        ),
    )
    .unwrap();
    assert_eq!(
        compile_stmt_with_ctx(
            &mut ctx,
            Statement::Expression(Expression::Call {
                modifier: CallModifier::NormalCall,
                func: "f",
                args: vec![(spn(), Expression::List(vec![]))],
            }),
        )
        .unwrap_err(),
        CompileError {
            span: spn(),
            kind: CompileErrorKind::TypeMismatch { expected: ValType::Number, got: ValType::List }
        }
    );
}

#[test]
fn compiler_piecewise_single() {
    let mut ctx = new_ctx();
    ctx.variables.insert("a", ValType::Number);
    assert_eq!(
        compile_with_ctx(
            &mut ctx,
            Expression::Piecewise {
                first: Box::new(Branch {
                    cond_left: (spn(), Expression::Variable("a")),
                    cond: CompareOperator::Equal,
                    cond_right: (spn(), Expression::Num("1")),
                    val: (spn(), Expression::Num("2"))
                }),
                rest: vec![],
                default: Box::new((spn(), Expression::Num("3")))
            }
        ),
        Ok(Latex::Piecewise {
            first: Box::new(Cond {
                left: Latex::Variable("a".to_string()),
                op: CompareOperator::Equal,
                right: Latex::Num("1".to_string()),
                result: Latex::Num("2".to_string())
            }),
            rest: vec![],
            default: Box::new(Latex::Num("3".to_string()))
        })
    );
}

fn branch<'a>(op: CompareOperator, right: &'a str, val: &'a str) -> Branch<'a> {
    Branch {
        cond_left: (spn(), Expression::Variable("a")),
        cond: op,
        cond_right: (spn(), Expression::Num(right)),
        val: (spn(), Expression::Num(val)),
    }
}

fn cond(op: CompareOperator, right: &str, val: &str) -> Cond {
    Cond {
        left: Latex::Variable("a".to_string()),
        op,
        right: Latex::Num(right.to_string()),
        result: Latex::Num(val.to_string()),
    }
}

#[test]
fn compiler_piecewise_multi() {
    let mut ctx = new_ctx();
    ctx.variables.insert("a", ValType::Number);
    assert_eq!(
        compile_with_ctx(
            &mut ctx,
            Expression::Piecewise {
                first: Box::new(branch(CompareOperator::GreaterThanEqual, "1", "2")),
                rest: vec![
                    branch(CompareOperator::LessThanEqual, "3", "4"),
                    branch(CompareOperator::LessThan, "5", "6"),
                    branch(CompareOperator::GreaterThan, "7", "8"),
                ],
                default: Box::new((spn(), Expression::Num("9")))
            }
        ),
        Ok(Latex::Piecewise {
            first: Box::new(cond(CompareOperator::GreaterThanEqual, "1", "2")),
            rest: vec![
                cond(CompareOperator::LessThanEqual, "3", "4"),
                cond(CompareOperator::LessThan, "5", "6"),
                cond(CompareOperator::GreaterThan, "7", "8"),
            ],
            default: Box::new(Latex::Num("9".to_string()))
        }),
    );
}
