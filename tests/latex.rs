use desmos_lang::latex::{
    binaryoperator_to_str, compareop_to_str, compile_identifier, cond_to_str,
    format_latex_identifier, latex_to_str, multi_latex_to_str, BinaryOperator, CompareOperator,
    Cond, Latex, UnaryOperator,
};

fn check(input: Latex, output: &'static str) {
    assert_eq!(latex_to_str(input), output.to_string());
}

fn num(s: &str) -> Latex {
    Latex::Num(s.to_string())
}

#[test]
fn latex_piecewise_single() {
    check(
        Latex::Piecewise {
            first: Box::new(Cond {
                left: Latex::Num("1".to_string()),
                op: CompareOperator::Equal,
                right: Latex::Num("2".to_string()),
                result: Latex::Num("3".to_string()),
            }),
            rest: vec![],
            default: Box::new(Latex::Num("4".to_string())),
        },
        "\\left\\{1=2:3,4\\right\\}",
    )
}

#[test]
fn latex_piecewise_multi() {
    check(
        Latex::Piecewise {
            first: Box::new(Cond {
                left: Latex::Num("1".to_string()),
                op: CompareOperator::Equal,
                right: Latex::Num("2".to_string()),
                result: Latex::Num("3".to_string()),
            }),
            rest: vec![Cond {
                left: Latex::Num("4".to_string()),
                op: CompareOperator::LessThan,
                right: Latex::Num("5".to_string()),
                result: Latex::Num("6".to_string()),
            }],
            default: Box::new(Latex::Num("7".to_string())),
        },
        "\\left\\{1=2:3,4<5:6,7\\right\\}",
    )
}

#[test]
fn identifiers_render_with_subscript() {
    assert_eq!(format_latex_identifier("".to_string()), "");
    assert_eq!(format_latex_identifier("a".to_string()), "a");
    assert_eq!(format_latex_identifier("abc".to_string()), "a_{bc}");
    assert_eq!(compile_identifier("xy"), "x_{y}");
    check(Latex::Variable("abc".to_string()), "a_{bc}");
}

#[test]
fn multiplication_of_two_numbers_uses_cdot() {
    check(
        Latex::BinaryExpression {
            left: Box::new(num("1")),
            operator: BinaryOperator::Multiply,
            right: Box::new(num("2")),
        },
        "1\\cdot 2",
    );
    check(
        Latex::BinaryExpression {
            left: Box::new(num("2")),
            operator: BinaryOperator::Multiply,
            right: Box::new(Latex::Variable("x".to_string())),
        },
        "2x",
    );
}

#[test]
fn other_binary_operators() {
    check(
        Latex::BinaryExpression {
            left: Box::new(num("1")),
            operator: BinaryOperator::Add,
            right: Box::new(num("2")),
        },
        "1+2",
    );
    check(
        Latex::BinaryExpression {
            left: Box::new(num("1")),
            operator: BinaryOperator::Subtract,
            right: Box::new(num("2")),
        },
        "1-2",
    );
    check(
        Latex::BinaryExpression {
            left: Box::new(num("1")),
            operator: BinaryOperator::Divide,
            right: Box::new(num("2")),
        },
        "\\frac{1}{2}",
    );
    check(
        Latex::UnaryExpression { left: Box::new(num("3")), operator: UnaryOperator::Factorial },
        "3!",
    );
}

#[test]
fn calls_lists_and_definitions() {
    check(
        Latex::Call { func: "sin".to_string(), is_builtin: true, args: vec![num("1")] },
        "\\sin\\left(1\\right)",
    );
    check(
        Latex::Call { func: "f".to_string(), is_builtin: false, args: vec![num("1"), num("2")] },
        "f\\left(1,2\\right)",
    );
    check(Latex::List(vec![num("1"), num("2"), num("3")]), "1,2,3");
    check(Latex::List(vec![]), "");
    check(
        Latex::Assignment(Box::new(Latex::Variable("a".to_string())), Box::new(num("1"))),
        "a=1",
    );
    check(
        Latex::FuncDef {
            name: "f".to_string(),
            args: vec!["x".to_string(), "ab".to_string()],
            body: Box::new(num("1")),
        },
        "f\\left(x,a_{b}\\right)=1",
    );
}

#[test]
fn piece_renderers() {
    assert_eq!(
        binaryoperator_to_str(num("6"), BinaryOperator::Divide, Latex::Variable("xy".to_string())),
        "\\frac{6}{x_{y}}"
    );
    assert_eq!(compareop_to_str(CompareOperator::Equal), "=");
    assert_eq!(compareop_to_str(CompareOperator::GreaterThan), ">");
    assert_eq!(compareop_to_str(CompareOperator::LessThan), "<");
    assert_eq!(compareop_to_str(CompareOperator::GreaterThanEqual), "\\le");
    assert_eq!(compareop_to_str(CompareOperator::LessThanEqual), "\\ge");
    assert_eq!(
        cond_to_str(Cond {
            left: Latex::Variable("x".to_string()),
            op: CompareOperator::LessThan,
            right: num("1"),
            result: num("2"),
        }),
        "x<1:2"
    );
    assert_eq!(
        multi_latex_to_str(vec![num("1"), Latex::Variable("ab".to_string())]),
        vec!["1".to_string(), "a_{b}".to_string()]
    );
}
