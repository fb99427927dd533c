use vstd::prelude::*;
use crate::runtime::ValType;

verus! {

/// Names of the builtin functions from one number to one number.
pub open spec fn is_unary_math(name: Seq<char>) -> bool {
    name == "sin"@ || name == "cos"@ || name == "tan"@ || name == "csc"@ || name == "sec"@
        || name == "cot"@ || name == "arcsin"@ || name == "arccos"@ || name == "arctan"@
        || name == "sqrt"@ || name == "ln"@ || name == "log"@ || name == "exp"@ || name
        == "abs"@ || name == "floor"@ || name == "ceil"@ || name == "round"@ || name == "sign"@
}

/// Names of the builtin functions from one list to one number.
pub open spec fn is_list_reducer(name: Seq<char>) -> bool {
    name == "total"@ || name == "mean"@ || name == "length"@ || name == "min"@ || name
        == "max"@
}

/// The builtin table: parameter types in order and the return type.
pub open spec fn builtin_signature(name: Seq<char>) -> Option<(Seq<ValType>, ValType)> {
    if is_unary_math(name) {
        Some((seq![ValType::Number], ValType::Number))
    } else if name == "mod"@ {
        Some((seq![ValType::Number, ValType::Number], ValType::Number))
    } else if is_list_reducer(name) {
        Some((seq![ValType::List], ValType::Number))
    } else {
        None
    }
}

pub(crate) fn same_text(a: &str, b: &str) -> (r: bool)
    ensures
        r == (a@ == b@),
{
    a.to_owned() == b.to_owned()
}

fn unary_math(name: &str) -> (r: bool)
    ensures
        r == is_unary_math(name@),
{
    same_text(name, "sin") || same_text(name, "cos") || same_text(name, "tan") || same_text(
        name,
        "csc",
    ) || same_text(name, "sec") || same_text(name, "cot") || same_text(name, "arcsin")
        || same_text(name, "arccos") || same_text(name, "arctan") || same_text(name, "sqrt")
        || same_text(name, "ln") || same_text(name, "log") || same_text(name, "exp")
        || same_text(name, "abs") || same_text(name, "floor") || same_text(name, "ceil")
        || same_text(name, "round") || same_text(name, "sign")
}

fn list_reducer(name: &str) -> (r: bool)
    ensures
        r == is_list_reducer(name@),
{
    same_text(name, "total") || same_text(name, "mean") || same_text(name, "length")
        || same_text(name, "min") || same_text(name, "max")
}

/// Whether `name` names the modulo builtin.
fn is_mod_name(name: &str) -> (r: bool)
    ensures
        r == (name@ == "mod"@),
{
    same_text(name, "mod")
}

/// Looks `name` up in the builtin table.
pub fn builtin_function(name: &str) -> (r: Option<(Vec<ValType>, ValType)>)
    ensures
        match r {
            Some((args, ret)) => builtin_signature(name@) == Some((args@, ret)),
            None => builtin_signature(name@) is None,
        },
{
    if unary_math(name) {
        let args = vec![ValType::Number];
        Some((args, ValType::Number))
    } else if is_mod_name(name) {
        let args = vec![ValType::Number, ValType::Number];
        Some((args, ValType::Number))
    } else if list_reducer(name) {
        let args = vec![ValType::List];
        Some((args, ValType::Number))
    } else {
        None
    }
}

} // verus!
