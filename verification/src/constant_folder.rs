//! The constant folder: evaluates the restricted class of constant integer
//! expressions (signed literals under a chain of unary sign operators) used
//! for array bounds and scalar initializers.

use vstd::prelude::*;
use crate::ast::{Operator, Statement};

verus! {

/// What constant folding yields: the literal's value under the arithmetic
/// interpretation of the sign operators (`-` negates, `+` keeps), folding
/// step by step. A negation that would leave the 32-bit signed range fails
/// to fold, as does any expression shape other than a literal under sign
/// operators.
pub open spec fn folded_int(s: Statement) -> Option<int>
    decreases s,
{
    match s {
        Statement::LiteralInteger { value } => Some(value as int),
        Statement::UnaryExpression { operator, value } => match folded_int(*value) {
            Option::Some(v) => match operator {
                Operator::Minus => if v == i32::MIN as int {
                    None
                } else {
                    Some(-v)
                },
                Operator::Plus => Some(v),
            },
            Option::None => None,
        },
        _ => None,
    }
}

/// A folded value always lies in the 32-bit signed range.
pub proof fn lemma_folded_int_in_range(s: Statement)
    ensures
        folded_int(s) is Some ==> i32::MIN <= folded_int(s)->0 <= i32::MAX,
    decreases s,
{
    match s {
        Statement::UnaryExpression { operator, value } => {
            lemma_folded_int_in_range(*value);
        },
        _ => {},
    }
}

/// Extracts the signed literal value of `s`: the literal itself, or the
/// value of the operand with the sign operator applied.
pub fn extract_value(s: &Statement) -> (r: Option<i32>)
    ensures
        match folded_int(*s) {
            Option::Some(v) => r matches Some(x) && x as int == v,
            Option::None => r is None,
        },
    decreases s,
{
    proof {
        lemma_folded_int_in_range(*s);
    }
    match s {
        Statement::LiteralInteger { value } => Some(*value),
        Statement::UnaryExpression { operator, value } => match extract_value(value) {
            Option::Some(v) => match operator {
                Operator::Minus => if v == i32::MIN {
                    None
                } else {
                    Some(-v)
                },
                Operator::Plus => Some(v),
            },
            Option::None => None,
        },
        _ => None,
    }
}

/// Evaluates a constant integer expression; `None` when the expression does
/// not fold (callers for array bounds substitute an offset of 0 instead of
/// failing — a deliberate, documented policy of this subsystem).
pub fn evaluate_constant_int(s: &Statement) -> (r: Option<i32>)
    ensures
        match folded_int(*s) {
            Option::Some(v) => r matches Some(x) && x as int == v,
            Option::None => r is None,
        },
{
    extract_value(s)
}

} // verus!
