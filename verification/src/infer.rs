//! Type inference for array literals.
//!
//! A small lattice decides whether an array literal is homogeneous enough to
//! emit as a typed sequence; if the join of the element types widens to
//! `Variable`, every element is emitted boxed.

use vstd::prelude::*;

use crate::ast::{Array, Expression};

verus! {

/// The lattice of element types an array literal can be inferred to hold.
pub enum ArrayType {
    Bool,
    F64,
    Str,
    Vec4,
    Link,
    Variable,
    Object,
    Array(Option<Box<ArrayType>>),
}

/// The join of two inferred types: equal types join to themselves, arrays
/// join element-wise, and anything else widens to `Variable`.
pub open spec fn join_at(a: ArrayType, b: ArrayType) -> ArrayType
    decreases a,
{
    match (a, b) {
        (ArrayType::Array(ao), ArrayType::Array(bo)) => {
            match (ao, bo) {
                (Option::None, Option::Some(_)) => b,
                (Option::Some(_), Option::None) => a,
                (Option::Some(x), Option::Some(y)) => {
                    let res = join_at(*x, *y);
                    if res == ArrayType::Variable && !(*x == ArrayType::Variable && *y
                        == ArrayType::Variable) {
                        ArrayType::Variable
                    } else {
                        ArrayType::Array(Option::Some(Box::new(res)))
                    }
                },
                (Option::None, Option::None) => a,
            }
        },
        _ => {
            if a == b {
                a
            } else {
                ArrayType::Variable
            }
        },
    }
}

/// The type inferred for one expression, if it contributes to the join.
pub open spec fn infer_at(e: Expression) -> Option<ArrayType>
    decreases e, 0int,
{
    match e {
        Expression::Number(_) => Option::Some(ArrayType::F64),
        Expression::Sum(_) => Option::Some(ArrayType::F64),
        Expression::Prod(_) => Option::Some(ArrayType::F64),
        Expression::Text(_) => Option::Some(ArrayType::Str),
        Expression::Bool(_) => Option::Some(ArrayType::Bool),
        Expression::Vec4(_) => Option::Some(ArrayType::Vec4),
        Expression::Link => Option::Some(ArrayType::Link),
        Expression::Object(_) => Option::Some(ArrayType::Object),
        Expression::Array(arr) => Option::Some(
            ArrayType::Array(
                match infer_upto(arr.items@, arr.items@.len() as int) {
                    Option::Some(t) => Option::Some(Box::new(t)),
                    Option::None => Option::None,
                },
            ),
        ),
        _ => Option::None,
    }
}

/// Folds one inferred element type into the running join.
pub open spec fn combine_at(acc: Option<ArrayType>, o: Option<ArrayType>) -> Option<ArrayType> {
    match acc {
        Option::None => o,
        Option::Some(t) => match o {
            Option::None => Option::Some(t),
            Option::Some(u) => Option::Some(join_at(t, u)),
        },
    }
}

/// The running join after the first `j` elements.
pub open spec fn infer_upto(items: Seq<Expression>, j: int) -> Option<ArrayType>
    decreases items, j,
{
    if j <= 0 || j > items.len() {
        Option::None
    } else {
        combine_at(infer_upto(items, j - 1), infer_at(items[j - 1]))
    }
}

/// Whether an array literal's elements must be emitted boxed.
pub open spec fn items_boxed(items: Seq<Expression>) -> bool {
    infer_upto(items, items.len() as int) == Option::Some(ArrayType::Variable)
}

/// Returns a copy of an inferred type.
fn at_clone(a: &ArrayType) -> (r: ArrayType)
    ensures
        r == *a,
    decreases *a,
{
    match a {
        ArrayType::Bool => ArrayType::Bool,
        ArrayType::F64 => ArrayType::F64,
        ArrayType::Str => ArrayType::Str,
        ArrayType::Vec4 => ArrayType::Vec4,
        ArrayType::Link => ArrayType::Link,
        ArrayType::Variable => ArrayType::Variable,
        ArrayType::Object => ArrayType::Object,
        ArrayType::Array(o) => match o {
            Option::Some(x) => ArrayType::Array(Option::Some(Box::new(at_clone(x)))),
            Option::None => ArrayType::Array(Option::None),
        },
    }
}

/// Computes the join of two inferred types.
fn join_exec(a: &ArrayType, b: &ArrayType) -> (r: ArrayType)
    ensures
        r == join_at(*a, *b),
    decreases *a,
{
    match (a, b) {
        (ArrayType::Bool, ArrayType::Bool) => ArrayType::Bool,
        (ArrayType::F64, ArrayType::F64) => ArrayType::F64,
        (ArrayType::Str, ArrayType::Str) => ArrayType::Str,
        (ArrayType::Vec4, ArrayType::Vec4) => ArrayType::Vec4,
        (ArrayType::Link, ArrayType::Link) => ArrayType::Link,
        (ArrayType::Variable, ArrayType::Variable) => ArrayType::Variable,
        (ArrayType::Object, ArrayType::Object) => ArrayType::Object,
        (ArrayType::Array(ao), ArrayType::Array(bo)) => match (ao, bo) {
            (Option::None, Option::Some(_)) => at_clone(b),
            (Option::Some(_), Option::None) => at_clone(a),
            (Option::Some(x), Option::Some(y)) => {
                let res = join_exec(x, y);
                let widen = matches!(res, ArrayType::Variable) && !(matches!(
                    **x,
                    ArrayType::Variable,
                ) && matches!(**y, ArrayType::Variable));
                if widen {
                    ArrayType::Variable
                } else {
                    ArrayType::Array(Option::Some(Box::new(res)))
                }
            },
            (Option::None, Option::None) => ArrayType::Array(Option::None),
        },
        _ => ArrayType::Variable,
    }
}

/// Folds the inferred types of all elements of an array literal.
pub fn infer_items(items: &Vec<Expression>) -> (r: Option<ArrayType>)
    ensures
        r == infer_upto(items@, items@.len() as int),
    decreases items@, 0int,
{
    let n = items.len();
    let mut acc: Option<ArrayType> = Option::None;
    let mut i: usize = 0;
    while i < n
        invariant
            i <= n,
            n == items@.len(),
            acc == infer_upto(items@, i as int),
        decreases n - i,
    {
        let o = infer_exec(&items[i]);
        acc = match (acc, o) {
            (Option::None, o2) => o2,
            (Option::Some(t), Option::None) => Option::Some(t),
            (Option::Some(t), Option::Some(u)) => Option::Some(join_exec(&t, &u)),
        };
        i = i + 1;
    }
    acc
}

/// Infers the contribution of one expression.
pub fn infer_exec(e: &Expression) -> (r: Option<ArrayType>)
    ensures
        r == infer_at(*e),
    decreases *e, 1int,
{
    match e {
        Expression::Number(_) => Option::Some(ArrayType::F64),
        Expression::Sum(_) => Option::Some(ArrayType::F64),
        Expression::Prod(_) => Option::Some(ArrayType::F64),
        Expression::Text(_) => Option::Some(ArrayType::Str),
        Expression::Bool(_) => Option::Some(ArrayType::Bool),
        Expression::Vec4(_) => Option::Some(ArrayType::Vec4),
        Expression::Link => Option::Some(ArrayType::Link),
        Expression::Object(_) => Option::Some(ArrayType::Object),
        Expression::Array(arr) => {
            let t = infer_items(&arr.items);
            Option::Some(
                ArrayType::Array(
                    match t {
                        Option::Some(u) => Option::Some(Box::new(u)),
                        Option::None => Option::None,
                    },
                ),
            )
        },
        _ => Option::None,
    }
}

} // verus!
