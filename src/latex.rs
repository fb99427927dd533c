use vstd::prelude::*;

verus! {

/// Arithmetic operators of the output tree.
#[derive(Copy, Clone, Debug, PartialEq, Eq, Structural)]
pub enum BinaryOperator {
    Add,
    Subtract,
    Multiply,
    Divide,
}

/// Unary operators of the output tree.
#[derive(Copy, Clone, Debug, PartialEq, Eq, Structural)]
pub enum UnaryOperator {
    Factorial,
}

/// Comparators allowed in a piecewise branch.
#[derive(Copy, Clone, Debug, PartialEq, Eq, Structural)]
pub enum CompareOperator {
    Equal,
    GreaterThan,
    LessThan,
    GreaterThanEqual,
    LessThanEqual,
}

/// One clause of a piecewise expression: `left <op> right : result`.
#[derive(Debug, PartialEq)]
pub struct Cond {
    pub left: Latex,
    pub op: CompareOperator,
    pub right: Latex,
    pub result: Latex,
}

/// The untyped, render-ready output tree.
#[derive(Debug, PartialEq)]
pub enum Latex {
    Variable(String),
    Num(String),
    Call { func: String, is_builtin: bool, args: Vec<Latex> },
    BinaryExpression { left: Box<Latex>, operator: BinaryOperator, right: Box<Latex> },
    UnaryExpression { left: Box<Latex>, operator: UnaryOperator },
    List(Vec<Latex>),
    Assignment(Box<Latex>, Box<Latex>),
    FuncDef { name: String, args: Vec<String>, body: Box<Latex> },
    Piecewise { first: Box<Cond>, rest: Vec<Cond>, default: Box<Latex> },
}

/// Mathematical value of a [`Latex`] tree: texts as character sequences.
pub enum LatexModel {
    Variable(Seq<char>),
    Num(Seq<char>),
    Call { func: Seq<char>, is_builtin: bool, args: Seq<LatexModel> },
    BinaryExpression { left: Box<LatexModel>, operator: BinaryOperator, right: Box<LatexModel> },
    UnaryExpression { left: Box<LatexModel>, operator: UnaryOperator },
    List(Seq<LatexModel>),
    Assignment(Box<LatexModel>, Box<LatexModel>),
    FuncDef { name: Seq<char>, args: Seq<Seq<char>>, body: Box<LatexModel> },
    Piecewise { first: Box<CondModel>, rest: Seq<CondModel>, default: Box<LatexModel> },
}

/// Mathematical value of a [`Cond`].
pub struct CondModel {
    pub left: LatexModel,
    pub op: CompareOperator,
    pub right: LatexModel,
    pub result: LatexModel,
}

pub open spec fn latex_model(l: Latex) -> LatexModel
    decreases l,
{
    match l {
        Latex::Variable(s) => LatexModel::Variable(s@),
        Latex::Num(s) => LatexModel::Num(s@),
        Latex::Call { func, is_builtin, args } => LatexModel::Call {
            func: func@,
            is_builtin,
            args: Seq::new(
                args@.len(),
                |i: int|
                    if 0 <= i < args@.len() {
                        latex_model(args@[i])
                    } else {
                        LatexModel::Num(Seq::empty())
                    },
            ),
        },
        Latex::BinaryExpression { left, operator, right } => LatexModel::BinaryExpression {
            left: Box::new(latex_model(*left)),
            operator,
            right: Box::new(latex_model(*right)),
        },
        Latex::UnaryExpression { left, operator } => LatexModel::UnaryExpression {
            left: Box::new(latex_model(*left)),
            operator,
        },
        Latex::List(items) => LatexModel::List(
            Seq::new(
                items@.len(),
                |i: int|
                    if 0 <= i < items@.len() {
                        latex_model(items@[i])
                    } else {
                        LatexModel::Num(Seq::empty())
                    },
            ),
        ),
        Latex::Assignment(l, r) => LatexModel::Assignment(
            Box::new(latex_model(*l)),
            Box::new(latex_model(*r)),
        ),
        Latex::FuncDef { name, args, body } => LatexModel::FuncDef {
            name: name@,
            args: args@.map_values(|a: String| a@),
            body: Box::new(latex_model(*body)),
        },
        Latex::Piecewise { first, rest, default } => LatexModel::Piecewise {
            first: Box::new(cond_model(*first)),
            rest: Seq::new(
                rest@.len(),
                |i: int|
                    if 0 <= i < rest@.len() {
                        cond_model(rest@[i])
                    } else {
                        CondModel {
                            left: LatexModel::Num(Seq::empty()),
                            op: CompareOperator::Equal,
                            right: LatexModel::Num(Seq::empty()),
                            result: LatexModel::Num(Seq::empty()),
                        }
                    },
            ),
            default: Box::new(latex_model(*default)),
        },
    }
}

pub open spec fn cond_model(c: Cond) -> CondModel
    decreases c,
{
    CondModel {
        left: latex_model(c.left),
        op: c.op,
        right: latex_model(c.right),
        result: latex_model(c.result),
    }
}

impl View for Latex {
    type V = LatexModel;

    open spec fn view(&self) -> LatexModel {
        latex_model(*self)
    }
}

impl View for Cond {
    type V = CondModel;

    open spec fn view(&self) -> CondModel {
        cond_model(*self)
    }
}

/// `x` stays `x`; a longer name `abc` becomes `a_{bc}`.
pub open spec fn identifier_text(v: Seq<char>) -> Seq<char> {
    if v.len() <= 1 {
        v
    } else {
        seq![v[0]] + "_{"@ + v.subrange(1, v.len() as int) + "}"@
    }
}

/// The parts, separated by commas.
pub open spec fn join_commas(parts: Seq<Seq<char>>) -> Seq<char>
    decreases parts.len(),
{
    if parts.len() == 0 {
        Seq::empty()
    } else if parts.len() == 1 {
        parts[0]
    } else {
        join_commas(parts.drop_last()) + ","@ + parts.last()
    }
}

/// The parts, one after the other.
pub open spec fn concat_all(parts: Seq<Seq<char>>) -> Seq<char>
    decreases parts.len(),
{
    if parts.len() == 0 {
        Seq::empty()
    } else {
        concat_all(parts.drop_last()) + parts.last()
    }
}

pub open spec fn compare_text(op: CompareOperator) -> Seq<char> {
    match op {
        CompareOperator::Equal => "="@,
        CompareOperator::GreaterThan => ">"@,
        CompareOperator::LessThan => "<"@,
        CompareOperator::GreaterThanEqual => "\\le"@,
        CompareOperator::LessThanEqual => "\\ge"@,
    }
}

pub open spec fn is_num(m: LatexModel) -> bool {
    m is Num
}

/// Text of a binary expression whose operands render as `ls` and `rs`;
/// `both_num` tells whether both operands are literal numbers.
pub open spec fn binary_text(
    ls: Seq<char>,
    operator: BinaryOperator,
    both_num: bool,
    rs: Seq<char>,
) -> Seq<char> {
    match operator {
        BinaryOperator::Add => ls + "+"@ + rs,
        BinaryOperator::Subtract => ls + "-"@ + rs,
        BinaryOperator::Multiply => if both_num {
            ls + "\\cdot "@ + rs
        } else {
            ls + rs
        },
        BinaryOperator::Divide => "\\frac{"@ + ls + "}{"@ + rs + "}"@,
    }
}

/// The text that a tree renders to.
pub open spec fn render(m: LatexModel) -> Seq<char>
    decreases m,
{
    match m {
        LatexModel::Variable(s) => identifier_text(s),
        LatexModel::Num(s) => s,
        LatexModel::Call { func, is_builtin, args } => (if is_builtin {
            "\\"@
        } else {
            Seq::empty()
        }) + func + "\\left("@ + join_commas(render_each(args)) + "\\right)"@,
        LatexModel::BinaryExpression { left, operator, right } => binary_text(
            render(*left),
            operator,
            is_num(*left) && is_num(*right),
            render(*right),
        ),
        LatexModel::UnaryExpression { left, operator } => render(*left) + "!"@,
        LatexModel::List(items) => join_commas(render_each(items)),
        LatexModel::Assignment(l, r) => render(*l) + "="@ + render(*r),
        LatexModel::FuncDef { name, args, body } => name + "\\left("@ + join_commas(
            args.map_values(|a: Seq<char>| identifier_text(a)),
        ) + "\\right)="@ + render(*body),
        LatexModel::Piecewise { first, rest, default } => "\\left\\{"@ + cond_text(*first) + ","@
            + concat_all(clause_texts(rest)) + render(*default) + "\\right\\}"@,
    }
}

/// The texts of the trees, in order.
pub open spec fn render_each(items: Seq<LatexModel>) -> Seq<Seq<char>>
    decreases items,
{
    Seq::new(
        items.len(),
        |i: int|
            if 0 <= i < items.len() {
                render(items[i])
            } else {
                Seq::empty()
            },
    )
}

/// The texts of the clauses, each followed by a comma.
pub open spec fn clause_texts(conds: Seq<CondModel>) -> Seq<Seq<char>>
    decreases conds,
{
    Seq::new(
        conds.len(),
        |i: int|
            if 0 <= i < conds.len() {
                cond_text(conds[i]) + ","@
            } else {
                Seq::empty()
            },
    )
}

/// The text of one piecewise clause: `left<op>right:result`.
pub open spec fn cond_text(c: CondModel) -> Seq<char>
    decreases c,
{
    render(c.left) + compare_text(c.op) + render(c.right) + ":"@ + render(c.result)
}

/// Renders an identifier: a name of two or more characters `abc` becomes
/// `a_{bc}`; shorter names are kept.
pub fn format_latex_identifier(v: String) -> (r: String)
    ensures
        r@ == identifier_text(v@),
{
    let s = v.as_str();
    let n = s.unicode_len();
    if n <= 1 {
        return v;
    }
    let mut r = s.substring_char(0, 1).to_owned();
    r.append("_{");
    r.append(s.substring_char(1, n));
    r.append("}");
    proof {
        assert(s@.subrange(0, 1) =~= seq![v@[0]]);
    }
    r
}

/// Renders the identifier `v`, as [`format_latex_identifier`] does.
pub fn compile_identifier(v: &str) -> (r: String)
    ensures
        r@ == identifier_text(v@),
{
    format_latex_identifier(v.to_owned())
}

proof fn lemma_join_step(parts: Seq<Seq<char>>, i: int)
    requires
        0 < i < parts.len(),
    ensures
        join_commas(parts.subrange(0, i + 1)) == join_commas(parts.subrange(0, i)) + ","@
            + parts[i],
{
    assert(parts.subrange(0, i + 1).drop_last() =~= parts.subrange(0, i));
}

proof fn lemma_concat_step(parts: Seq<Seq<char>>, i: int)
    requires
        0 <= i < parts.len(),
    ensures
        concat_all(parts.subrange(0, i + 1)) == concat_all(parts.subrange(0, i)) + parts[i],
{
    assert(parts.subrange(0, i + 1).drop_last() =~= parts.subrange(0, i));
}

/// The texts, separated by commas.
fn join_with_commas(parts: &Vec<String>) -> (r: String)
    ensures
        r@ == join_commas(parts@.map_values(|p: String| p@)),
{
    let ghost texts = parts@.map_values(|p: String| p@);
    let mut r = String::new();
    let mut i: usize = 0;
    while i < parts.len()
        invariant
            i <= parts@.len(),
            texts == parts@.map_values(|p: String| p@),
            r@ == join_commas(texts.subrange(0, i as int)),
        decreases parts@.len() - i,
    {
        proof {
            if i > 0 {
                lemma_join_step(texts, i as int);
            } else {
                assert(texts.subrange(0, 1).drop_last() =~= Seq::<Seq<char>>::empty());
            }
        }
        if i > 0 {
            r.append(",");
        }
        r.append(parts[i].as_str());
        i = i + 1;
    }
    proof {
        assert(texts.subrange(0, parts@.len() as int) =~= texts);
    }
    r
}

/// Renders each tree, in order.
pub fn multi_latex_to_str(items: Vec<Latex>) -> (r: Vec<String>)
    ensures
        r@.len() == items@.len(),
        forall|i: int| 0 <= i < items@.len() ==> #[trigger] r@[i]@ == render(items@[i]@),
    decreases items,
{
    let ghost orig = items;
    let mut rest = items;
    let mut out: Vec<String> = Vec::new();
    while rest.len() > 0
        invariant
            orig == items,
            out@.len() <= orig@.len(),
            rest@ == orig@.subrange(out@.len() as int, orig@.len() as int),
            forall|i: int| 0 <= i < out@.len() ==> #[trigger] out@[i]@ == render(orig@[i]@),
        decreases rest@.len(),
    {
        let x = rest.remove(0);
        proof {
            assert(x == orig@[out@.len() as int]);
            assert(decreases_to!(orig => orig@));
        }
        let t = latex_to_str(x);
        out.push(t);
    }
    out
}

/// Renders a binary expression.
pub fn binaryoperator_to_str(left: Latex, operator: BinaryOperator, right: Latex) -> (r: String)
    ensures
        r@ == render(
            LatexModel::BinaryExpression {
                left: Box::new(left@),
                operator,
                right: Box::new(right@),
            },
        ),
{
    let both_num = matches!(left, Latex::Num(_)) && matches!(right, Latex::Num(_));
    let ls = latex_to_str(left);
    let rs = latex_to_str(right);
    binary_str(ls, operator, both_num, rs)
}

fn binary_str(ls: String, operator: BinaryOperator, both_num: bool, rs: String) -> (r: String)
    ensures
        r@ == binary_text(ls@, operator, both_num, rs@),
{
    match operator {
        BinaryOperator::Add => {
            let mut r = ls;
            r.append("+");
            r.append(rs.as_str());
            r
        },
        BinaryOperator::Subtract => {
            let mut r = ls;
            r.append("-");
            r.append(rs.as_str());
            r
        },
        BinaryOperator::Multiply => {
            let mut r = ls;
            if both_num {
                r.append("\\cdot ");
            }
            r.append(rs.as_str());
            r
        },
        BinaryOperator::Divide => {
            let mut r = String::new();
            r.append("\\frac{");
            r.append(ls.as_str());
            r.append("}{");
            r.append(rs.as_str());
            r.append("}");
            r
        },
    }
}

/// The text of a comparator.
pub fn compareop_to_str(op: CompareOperator) -> (r: &'static str)
    ensures
        r@ == compare_text(op),
{
    match op {
        CompareOperator::Equal => "=",
        CompareOperator::GreaterThan => ">",
        CompareOperator::LessThan => "<",
        CompareOperator::GreaterThanEqual => "\\le",
        CompareOperator::LessThanEqual => "\\ge",
    }
}

/// Renders one piecewise clause.
pub fn cond_to_str(cond: Cond) -> (r: String)
    ensures
        r@ == cond_text(cond@),
    decreases cond,
{
    let Cond { left, op, right, result } = cond;
    let mut r = latex_to_str(left);
    r.append(compareop_to_str(op));
    r.append(latex_to_str(right).as_str());
    r.append(":");
    r.append(latex_to_str(result).as_str());
    r
}

/// Renders a tree to its text.
pub fn latex_to_str(l: Latex) -> (r: String)
    ensures
        r@ == render(l@),
    decreases l,
{
    let ghost l0 = l;
    match l {
        Latex::Variable(s) => format_latex_identifier(s),
        Latex::Num(s) => s,
        Latex::Call { func, is_builtin, args } => {
            let parts = multi_latex_to_str(args);
            let joined = join_with_commas(&parts);
            let mut r = String::new();
            if is_builtin {
                r.append("\\");
            }
            r.append(func.as_str());
            r.append("\\left(");
            r.append(joined.as_str());
            r.append("\\right)");
            proof {
                let m = l0@;
                assert(parts@.map_values(|p: String| p@) =~= render_each(m->Call_args));
            }
            r
        },
        Latex::BinaryExpression { left, operator, right } => {
            let both_num = matches!(*left, Latex::Num(_)) && matches!(*right, Latex::Num(_));
            let ls = latex_to_str(*left);
            let rs = latex_to_str(*right);
            let r = binary_str(ls, operator, both_num, rs);
            r
        },
        Latex::UnaryExpression { left, operator } => {
            let mut r = latex_to_str(*left);
            r.append("!");
            r
        },
        Latex::List(items) => {
            let parts = multi_latex_to_str(items);
            let r = join_with_commas(&parts);
            proof {
                let m = l0@;
                assert(parts@.map_values(|p: String| p@) =~= render_each(m->List_0));
            }
            r
        },
        Latex::Assignment(left, right) => {
            let mut r = latex_to_str(*left);
            r.append("=");
            r.append(latex_to_str(*right).as_str());
            r
        },
        Latex::FuncDef { name, args, body } => {
            let mut formatted: Vec<String> = Vec::new();
            let mut i: usize = 0;
            while i < args.len()
                invariant
                    i <= args@.len(),
                    formatted@.len() == i,
                    forall|j: int|
                        0 <= j < i ==> #[trigger] formatted@[j]@ == identifier_text(args@[j]@),
                decreases args@.len() - i,
            {
                formatted.push(format_latex_identifier(args[i].clone()));
                i = i + 1;
            }
            let joined = join_with_commas(&formatted);
            let mut r = name;
            r.append("\\left(");
            r.append(joined.as_str());
            r.append("\\right)=");
            r.append(latex_to_str(*body).as_str());
            proof {
                assert(formatted@.map_values(|p: String| p@) =~= args@.map_values(
                    |a: String| a@,
                ).map_values(|a: Seq<char>| identifier_text(a)));
            }
            r
        },
        Latex::Piecewise { first, rest, default } => {
            let mut r = String::new();
            r.append("\\left\\{");
            r.append(cond_to_str(*first).as_str());
            r.append(",");
            let ghost orig = rest;
            let ghost clauses = Seq::new(
                orig@.len(),
                |i: int| cond_text(orig@[i]@) + ","@,
            );
            let ghost start = r@;
            let mut todo = rest;
            let n = todo.len();
            let mut k: usize = 0;
            while todo.len() > 0
                invariant
                    l0 == l,
                    l0 is Piecewise,
                    orig == l0->Piecewise_rest,
                    k <= orig@.len(),
                    k + todo@.len() == orig@.len(),
                    n == orig@.len(),
                    todo@ == orig@.subrange(k as int, orig@.len() as int),
                    clauses == Seq::new(
                        orig@.len(),
                        |i: int| cond_text(orig@[i]@) + ","@,
                    ),
                    r@ == start + concat_all(clauses.subrange(0, k as int)),
                decreases todo@.len(),
            {
                let c = todo.remove(0);
                proof {
                    assert(c == orig@[k as int]);
                    assert(decreases_to!(l0 => l0->Piecewise_rest));
                    assert(decreases_to!(orig => orig@));
                    lemma_concat_step(clauses, k as int);
                }
                r.append(cond_to_str(c).as_str());
                r.append(",");
                k = k + 1;
            }
            r.append(latex_to_str(*default).as_str());
            r.append("\\right\\}");
            proof {
                let m = l0@;
                assert(clauses.subrange(0, k as int) =~= clauses);
                assert(clauses =~= clause_texts(m->Piecewise_rest));
            }
            r
        },
    }
}

} // verus!
