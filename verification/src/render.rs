//! The definition of the emitted text.
//!
//! Every function here is a spec function of the form `xxx_text(t, node, ..)`
//! returning the output buffer after appending the rendering of `node` to
//! `t`; the executable emitter is proved to produce exactly these values.
//! The companion `xxx_ok` predicates say on which trees emission succeeds.
//!
//! Index arithmetic saturates at the largest machine value (see [`bump`]),
//! exactly as the emitter computes it.

use vstd::prelude::*;

use crate::ast::{
    Array, Assign, AssignOp, BinOp, BinOpExpression, Call, CallClosure, Closure, ClosureType,
    Compare, CompareOp, Expression, Function, ForN, For, fn_returns, Id, If, Item, Module, Number,
    Object, Swizzle, Type, UnOp, UnOpExpression, Vec4,
};
use crate::infer::items_boxed;
use crate::textutil::{
    call_arg_is_mut, dec_rep, debug_str_of, find_ch, indent, json_text, stripped,
};

verus! {

/// Saturating addition on indices, as the emitter performs it.
pub open spec fn bump(a: nat, b: nat) -> nat {
    if a + b > usize::MAX {
        usize::MAX as nat
    } else {
        a + b
    }
}

/// How many stack slots a call occupies for its return value: one when the
/// call resolves to a loaded function that returns a value.
pub open spec fn return_var(c: Call, m: Module) -> nat {
    match c.f_index {
        Option::Some(fi) => {
            if fi < m.functions.len() && fn_returns(m.functions[fi as int]) {
                1
            } else {
                0
            }
        },
        Option::None => 0,
    }
}

/// Whether an expression is a binding introduction: an `Assign` assignment
/// to an item with an empty id path.
pub open spec fn is_intro(e: Expression) -> bool {
    &&& e matches Expression::Assign(a)
    &&& a.op is Assign
    &&& *a.left matches Expression::Item(it)
    &&& it.ids.len() == 0
}

/// The number of binding introductions among the first `j` expressions of a
/// block: the block's running stack offset.
pub open spec fn offset_upto(exprs: Seq<Expression>, j: int) -> nat
    decreases j,
{
    if j <= 0 || j > exprs.len() {
        0
    } else {
        offset_upto(exprs, j - 1) + if is_intro(exprs[j - 1]) {
            1nat
        } else {
            0nat
        }
    }
}

/// The number of lanes (two to four) a swizzle contributes.
pub open spec fn swizzle_lanes(sw: Swizzle) -> nat {
    2 + (if sw.sw2 is Some {
        1nat
    } else {
        0nat
    }) + (if sw.sw3 is Some {
        1nat
    } else {
        0nat
    })
}

/// The number of extra lanes contributed by swizzles among the arguments
/// from position `j` on: each swizzle contributes one less than its lanes.
pub open spec fn vec4_extra_from(args: Seq<Expression>, j: int) -> nat
    decreases args.len() - j,
{
    if j < 0 || j >= args.len() {
        0
    } else {
        (match args[j] {
            Expression::Swizzle(sw) => (swizzle_lanes(*sw) - 1) as nat,
            _ => 0nat,
        }) + vec4_extra_from(args, j + 1)
    }
}

/// How many of the first `j` arguments are swizzles.
pub open spec fn swizzle_count_upto(args: Seq<Expression>, j: int) -> nat
    decreases j,
{
    if j <= 0 || j > args.len() {
        0
    } else {
        swizzle_count_upto(args, j - 1) + (match args[j - 1] {
            Expression::Swizzle(_) => 1nat,
            _ => 0nat,
        })
    }
}

/// The total lane count of the swizzles among the first `j` arguments.
pub open spec fn recount_upto(args: Seq<Expression>, j: int) -> nat
    decreases j,
{
    if j <= 0 || j > args.len() {
        0
    } else {
        recount_upto(args, j - 1) + (match args[j - 1] {
            Expression::Swizzle(sw) => swizzle_lanes(*sw),
            _ => 0nat,
        })
    }
}

/// A numeric literal: its decimal text, with `.0` forced when the value is
/// an integer.
pub open spec fn number_text(t: Seq<char>, n: Number) -> Seq<char> {
    if n.whole {
        (t + n.repr@) + ".0"@
    } else {
        t + n.repr@
    }
}

/// A boolean literal.
pub open spec fn bool_text(t: Seq<char>, b: bool) -> Seq<char> {
    if b {
        t + "true"@
    } else {
        t + "false"@
    }
}

/// An expression in value position.
pub open spec fn expr_text(t: Seq<char>, e: Expression, tabs: nat, sl: nat, m: Module) -> Seq<char>
    decreases e, 0int,
{
    match e {
        Expression::Call(c) => call_text(t, c, tabs, sl, m),
        Expression::Text(s) => t + json_text(s@),
        Expression::For(f) => for_text(t, *f, tabs, sl, m),
        Expression::ForN(f) => forn_text(t, *f, tabs, sl, m),
        Expression::Sum(f) => sum_prod_text(t, *f, tabs, sl, m, true),
        Expression::Prod(f) => sum_prod_text(t, *f, tabs, sl, m, false),
        Expression::Number(n) => number_text(t, n),
        Expression::Bool(b) => bool_text(t, b),
        Expression::Item(it) => item_text(t, it, tabs, sl, m),
        Expression::BinOp(b) => binop_text(t, *b, tabs, sl, m),
        Expression::Vec4(v) => vec4_text(t, v, tabs, sl, m),
        Expression::Array(a) => array_text(t, a, tabs, sl, m),
        Expression::Assign(a) => assign_text(t, *a, tabs, sl, m),
        Expression::All(f) => all_any_text(t, *f, tabs, sl, m, true),
        Expression::Any(f) => all_any_text(t, *f, tabs, sl, m, false),
        Expression::Compare(c) => compare_text(t, *c, tabs, sl, m),
        Expression::If(i) => if_text(t, *i, tabs, sl, m),
        Expression::UnOp(u) => unop_text(t, *u, tabs, sl, m),
        Expression::Max(f) => max_min_text(t, *f, tabs, sl, m, true),
        Expression::Min(f) => max_min_text(t, *f, tabs, sl, m, false),
        Expression::Sift(f) => sift_text(t, *f, tabs, sl, m),
        Expression::Block(b) => {
            let t1 = block_text(t + "{\n"@, b.expressions@, 0, bump(tabs, 1), sl, m);
            (t1 + indent(tabs)) + "}"@
        },
        Expression::Break(l) => {
            match l {
                Option::Some(label) => (t + "break '"@) + label@,
                Option::None => t + "break"@,
            }
        },
        Expression::Continue(l) => {
            match l {
                Option::Some(label) => (t + "continue '"@) + label@,
                Option::None => t + "continue"@,
            }
        },
        Expression::Object(o) => object_text(t, o, tabs, sl, m),
        Expression::Return(e2) => expr_text(t + "return "@, *e2, bump(tabs, 1), sl, m),
        Expression::Closure(cl) => closure_text(t, *cl, bump(tabs, 1), sl, m),
        Expression::CallClosure(cc) => call_closure_text(t, *cc, bump(tabs, 1), sl, m),
        Expression::Swizzle(_) => t,
        Expression::Link => t,
    }
}

/// A call: the stripped name, then each argument by reference, `&mut` where
/// the name's tag says so.
pub open spec fn call_text(t: Seq<char>, c: Call, tabs: nat, sl: nat, m: Module) -> Seq<char>
    decreases c, 2 * c.args.len() + 3,
{
    let t1 = if c.name@ == "where"@ {
        (t + c.name@) + "_("@
    } else {
        (t + stripped(c.name@)) + "("@
    };
    let t2 = call_args_text(t1, c, 0, tabs, bump(sl, return_var(c, m)), m);
    t2 + ")"@
}

/// The argument list of a call, from position `j` on.
pub open spec fn call_args_text(
    t: Seq<char>,
    c: Call,
    j: int,
    tabs: nat,
    sl: nat,
    m: Module,
) -> Seq<char>
    decreases c, 2 * (c.args.len() - j) + 1,
{
    if j < 0 || j >= c.args.len() {
        t
    } else {
        let pre = if call_arg_is_mut(c.name@, j) {
            t + "&mut "@
        } else {
            t + "&"@
        };
        let t1 = expr_text(pre, c.args[j], tabs, sl, m);
        let t2 = if j + 1 != c.args.len() {
            t1 + ", "@
        } else {
            t1
        };
        call_args_text(t2, c, j + 1, tabs, sl, m)
    }
}

/// A loop with init, condition and step.
pub open spec fn for_text(t: Seq<char>, f: For, tabs: nat, sl: nat, m: Module) -> Seq<char>
    decreases f, 0int,
{
    let t1 = expr_text(t, *f.init, tabs, sl, m) + ";\n"@;
    let t2 = t1 + indent(tabs);
    let t3 = match f.label {
        Option::Some(l) => ((t2 + "'"@) + l@) + ": loop {\n"@,
        Option::None => t2 + "loop {\n"@,
    };
    let t4 = (t3 + indent(bump(tabs, 1))) + "if !cond(&"@;
    let t5 = expr_text(t4, *f.cond, bump(tabs, 2), bump(sl, 1), m) + ") {break};\n"@;
    let t6 = (t5 + indent(bump(tabs, 1))) + "{\n"@;
    let t7 = block_text(t6, f.block.expressions@, 0, bump(tabs, 2), bump(sl, 1), m) + ";\n"@;
    let t8 = (t7 + indent(bump(tabs, 1))) + "}\n"@;
    let t9 = expr_text(t8 + indent(bump(tabs, 1)), *f.step, bump(tabs, 1), sl, m) + ";\n"@;
    (t9 + indent(tabs)) + "}"@
}

/// The start expression of a numeric loop, `0.0` when absent.
pub open spec fn forn_start_text(
    t: Seq<char>,
    o: Option<Box<Expression>>,
    tabs: nat,
    sl: nat,
    m: Module,
) -> Seq<char>
    decreases o, 0int,
{
    match o {
        Option::Some(e) => expr_text(t, *e, tabs, sl, m),
        Option::None => t + "0.0"@,
    }
}

/// The statement-shaped plain numeric loop.  It binds only the induction
/// variable; the bound is rendered inline in the termination guard.
pub open spec fn forn_text(t: Seq<char>, f: ForN, tabs: nat, sl: nat, m: Module) -> Seq<char>
    decreases f, 0int,
{
    let t1 = (t + "let mut _"@) + dec_rep(sl) + ": f64 = "@;
    let t2 = forn_start_text(t1, f.start, tabs, sl, m) + ";\n"@;
    let t3 = t2 + indent(tabs);
    let t4 = match f.label {
        Option::Some(l) => ((t3 + "'"@) + l@) + ": loop {\n"@,
        Option::None => t3 + "loop {\n"@,
    };
    let t5 = ((t4 + indent(bump(tabs, 1))) + "if _"@) + dec_rep(sl) + " >= "@;
    let t6 = expr_text(t5, *f.end, tabs, sl, m) + " {break};\n"@;
    let t7 = (t6 + indent(bump(tabs, 1))) + "{\n"@;
    let t8 = block_text(t7, f.block.expressions@, 0, bump(tabs, 2), bump(sl, 1), m) + ";\n"@;
    let t9 = (t8 + indent(bump(tabs, 1))) + "}\n"@;
    let t10 = ((t9 + indent(bump(tabs, 1))) + "_"@) + dec_rep(sl) + " += 1.0;\n"@;
    (t10 + indent(tabs)) + "}"@
}

/// The braced `all`/`any` loops over a boolean secret accumulator.
pub open spec fn all_any_text(
    t: Seq<char>,
    f: ForN,
    tabs: nat,
    sl: nat,
    m: Module,
    is_all: bool,
) -> Seq<char>
    decreases f, 0int,
{
    let t1 = (((t + "{\n"@) + indent(bump(tabs, 1))) + "let mut _"@) + dec_rep(sl) + ": f64 = "@;
    let t2 = forn_start_text(t1, f.start, tabs, sl, m) + ";\n"@;
    let t3 = ((t2 + indent(bump(tabs, 1))) + "let mut _"@) + dec_rep(bump(sl, 1)) + (if is_all {
        ": Secret<bool, f64> = Secret::new_bool(true);\n"@
    } else {
        ": Secret<bool, f64> = Secret::new_bool(false);\n"@
    });
    let t4 = ((t3 + indent(bump(tabs, 1))) + "let _"@) + dec_rep(bump(sl, 2)) + ": f64 = "@;
    let t5 = expr_text(t4, *f.end, tabs, sl, m) + ";\n"@;
    let t6 = (t5 + indent(bump(tabs, 1))) + "loop {\n"@;
    let t7 = ((((t6 + indent(bump(tabs, 2))) + "if _"@) + dec_rep(sl) + " >= _"@) + dec_rep(
        bump(sl, 2),
    )) + " {break};\n"@;
    let t8 = ((t7 + indent(bump(tabs, 2))) + "_"@) + dec_rep(bump(sl, 1)) + (if is_all {
        " &= {\n"@
    } else {
        " |= {\n"@
    });
    let t9 = block_text(t8, f.block.expressions@, 0, bump(tabs, 3), bump(sl, 1), m) + "\n"@;
    let t10 = (t9 + indent(bump(tabs, 2))) + "};\n"@;
    let t11 = ((t10 + indent(bump(tabs, 2))) + (if is_all {
        "if !cond(&_"@
    } else {
        "if cond(&_"@
    })) + dec_rep(bump(sl, 1)) + ") {\n"@;
    let t12 = (((t11 + indent(bump(tabs, 3))) + "_"@) + dec_rep(bump(sl, 1)) + ".secret.push(_"@)
        + dec_rep(sl) + ");\n"@;
    let t13 = (t12 + indent(bump(tabs, 3))) + "break;\n"@;
    let t14 = (t13 + indent(bump(tabs, 2))) + "}\n"@;
    let t15 = ((t14 + indent(bump(tabs, 2))) + "_"@) + dec_rep(sl) + " += 1.0;\n"@;
    let t16 = (t15 + indent(bump(tabs, 1))) + "}\n"@;
    let t17 = ((t16 + indent(bump(tabs, 1))) + "_"@) + dec_rep(bump(sl, 1)) + "\n"@;
    (t17 + indent(tabs)) + "}"@
}

/// The braced `sum`/`prod` loops over a scalar accumulator.
pub open spec fn sum_prod_text(
    t: Seq<char>,
    f: ForN,
    tabs: nat,
    sl: nat,
    m: Module,
    is_sum: bool,
) -> Seq<char>
    decreases f, 0int,
{
    let t1 = (((t + "{\n"@) + indent(bump(tabs, 1))) + "let mut _"@) + dec_rep(sl) + ": f64 = "@;
    let t2 = forn_start_text(t1, f.start, tabs, sl, m) + ";\n"@;
    let t3 = ((t2 + indent(bump(tabs, 1))) + "let mut _"@) + dec_rep(bump(sl, 1)) + (if is_sum {
        ": f64 = 0.0;\n"@
    } else {
        ": f64 = 1.0;\n"@
    });
    let t4 = (t3 + indent(bump(tabs, 1))) + "loop {\n"@;
    let t5 = ((t4 + indent(bump(tabs, 2))) + "if _"@) + dec_rep(sl) + " >= "@;
    let t6 = expr_text(t5, *f.end, tabs, sl, m) + " {break};\n"@;
    let t7 = ((t6 + indent(bump(tabs, 2))) + "_"@) + dec_rep(bump(sl, 1)) + (if is_sum {
        " += {\n"@
    } else {
        " *= {\n"@
    });
    let t8 = block_text(t7, f.block.expressions@, 0, bump(tabs, 3), bump(sl, 1), m) + "\n"@;
    let t9 = (t8 + indent(bump(tabs, 2))) + "};\n"@;
    let t10 = ((t9 + indent(bump(tabs, 2))) + "_"@) + dec_rep(sl) + " += 1.0;\n"@;
    let t11 = (t10 + indent(bump(tabs, 1))) + "}\n"@;
    let t12 = ((t11 + indent(bump(tabs, 1))) + "_"@) + dec_rep(bump(sl, 1)) + "\n"@;
    (t12 + indent(tabs)) + "}"@
}

/// The braced `max`/`min` loops over a scalar secret accumulator with a
/// tracked witness index.
pub open spec fn max_min_text(
    t: Seq<char>,
    f: ForN,
    tabs: nat,
    sl: nat,
    m: Module,
    is_max: bool,
) -> Seq<char>
    decreases f, 0int,
{
    let t1 = (((t + "{\n"@) + indent(bump(tabs, 1))) + "let mut _"@) + dec_rep(sl) + ": f64 = "@;
    let t2 = forn_start_text(t1, f.start, tabs, sl, m) + ";\n"@;
    let t3 = ((t2 + indent(bump(tabs, 1))) + "let mut _"@) + dec_rep(bump(sl, 1))
        + ": Secret<f64, f64> = Secret::new_f64(::std::f64::NAN);\n"@;
    let t4 = ((t3 + indent(bump(tabs, 1))) + "let mut _"@) + dec_rep(bump(sl, 2))
        + ": Option<f64> = None;\n"@;
    let t5 = ((t4 + indent(bump(tabs, 1))) + "let _"@) + dec_rep(bump(sl, 3)) + ": f64 = "@;
    let t6 = expr_text(t5, *f.end, tabs, sl, m) + ";\n"@;
    let t7 = (t6 + indent(bump(tabs, 1))) + "loop {\n"@;
    let t8 = ((((t7 + indent(bump(tabs, 2))) + "if _"@) + dec_rep(sl) + " >= _"@) + dec_rep(
        bump(sl, 3),
    )) + " {break};\n"@;
    let t9 = ((t8 + indent(bump(tabs, 2))) + "let _"@) + dec_rep(bump(sl, 3)) + " = {\n"@;
    let t10 = block_text(t9, f.block.expressions@, 0, bump(tabs, 3), bump(sl, 1), m);
    let t11 = if is_max {
        t10 + "\n"@
    } else {
        t10
    };
    let t12 = (t11 + indent(bump(tabs, 2))) + "};\n"@;
    let t13 = ((((t12 + indent(bump(tabs, 2))) + "if _"@) + dec_rep(bump(sl, 1))
        + ".val.is_nan() || _"@) + dec_rep(bump(sl, 3)) + ".value() "@) + (if is_max {
        "> _"@
    } else {
        "< _"@
    });
    let t14 = (t13 + dec_rep(bump(sl, 1))) + ".value() {\n"@;
    let t15 = (((t14 + indent(bump(tabs, 3))) + "_"@) + dec_rep(bump(sl, 1)) + " = _"@) + dec_rep(
        bump(sl, 3),
    ) + ".into();\n"@;
    let t16 = (((t15 + indent(bump(tabs, 3))) + "_"@) + dec_rep(bump(sl, 2)) + " = Some(_"@)
        + dec_rep(sl) + ");\n"@;
    let t17 = (t16 + indent(bump(tabs, 2))) + "}\n"@;
    let t18 = ((t17 + indent(bump(tabs, 2))) + "_"@) + dec_rep(sl) + " += 1.0;\n"@;
    let t19 = (t18 + indent(bump(tabs, 1))) + "}\n"@;
    let t20 = ((((t19 + indent(bump(tabs, 1))) + "if let Some(_"@) + dec_rep(sl) + ") = _"@)
        + dec_rep(bump(sl, 2))) + " {\n"@;
    let t21 = (((t20 + indent(bump(tabs, 2))) + "_"@) + dec_rep(bump(sl, 1)) + ".secret.push(_"@)
        + dec_rep(sl) + ");\n"@;
    let t22 = (t21 + indent(bump(tabs, 1))) + "}\n"@;
    let t23 = ((t22 + indent(bump(tabs, 1))) + "_"@) + dec_rep(bump(sl, 1)) + "\n"@;
    (t23 + indent(tabs)) + "}"@
}

/// The braced `sift` loop collecting the body's results.
pub open spec fn sift_text(t: Seq<char>, f: ForN, tabs: nat, sl: nat, m: Module) -> Seq<char>
    decreases f, 0int,
{
    let t1 = (((t + "{\n"@) + indent(bump(tabs, 1))) + "let mut _"@) + dec_rep(sl) + ": f64 = "@;
    let t2 = forn_start_text(t1, f.start, tabs, sl, m) + ";\n"@;
    let t3 = ((t2 + indent(bump(tabs, 1))) + "let mut _"@) + dec_rep(bump(sl, 1))
        + " = vec![];\n"@;
    let t4 = (t3 + indent(bump(tabs, 1))) + "loop {\n"@;
    let t5 = ((t4 + indent(bump(tabs, 2))) + "if _"@) + dec_rep(sl) + " >= "@;
    let t6 = expr_text(t5, *f.end, tabs, sl, m) + " {break};\n"@;
    let t7 = ((t6 + indent(bump(tabs, 2))) + "let _"@) + dec_rep(bump(sl, 3)) + " = {\n"@;
    let t8 = block_text(t7, f.block.expressions@, 0, bump(tabs, 3), bump(sl, 1), m) + "\n"@;
    let t9 = (t8 + indent(bump(tabs, 2))) + "};\n"@;
    let t10 = (((t9 + indent(bump(tabs, 2))) + "_"@) + dec_rep(bump(sl, 1)) + ".push(_"@)
        + dec_rep(bump(sl, 3)) + ");\n"@;
    let t11 = ((t10 + indent(bump(tabs, 2))) + "_"@) + dec_rep(sl) + " += 1.0;\n"@;
    let t12 = (t11 + indent(bump(tabs, 1))) + "}\n"@;
    let t13 = ((t12 + indent(bump(tabs, 1))) + "_"@) + dec_rep(bump(sl, 1)) + "\n"@;
    (t13 + indent(tabs)) + "}"@
}

/// An item: its positional name, then its id path.
pub open spec fn item_text(t: Seq<char>, it: Item, tabs: nat, sl: nat, m: Module) -> Seq<char>
    decreases it, 2 * it.ids.len() + 3,
{
    let t1 = match it.static_stack_id {
        Option::Some(s) => (t + "_"@) + dec_rep((sl - s) as nat),
        Option::None => t,
    };
    item_ids_text(t1, it, 0, tabs, sl, m)
}

/// The id path of an item, from position `j` on.
pub open spec fn item_ids_text(
    t: Seq<char>,
    it: Item,
    j: int,
    tabs: nat,
    sl: nat,
    m: Module,
) -> Seq<char>
    decreases it, 2 * (it.ids.len() - j) + 2,
{
    if j < 0 || j >= it.ids.len() {
        t
    } else {
        let t1 = t + "["@;
        let t2 = match it.ids[j] {
            Id::Str(key) => ((t1 + "&Arc::new("@) + debug_str_of(key@)) + ".into())"@,
            Id::Num(v) => t1 + dec_rep(v as nat),
            Id::Expr(e) => expr_text(t1 + "index::ind("@, *e, tabs, bump(sl, j as nat), m)
                + ")"@,
        };
        item_ids_text(t2 + "]"@, it, j + 1, tabs, sl, m)
    }
}

/// A binary operation: infix for the short-circuit operators, a named
/// dispatch function otherwise.
pub open spec fn binop_text(
    t: Seq<char>,
    b: BinOpExpression,
    tabs: nat,
    sl: nat,
    m: Module,
) -> Seq<char>
    decreases b, 0int,
{
    match b.op {
        BinOp::AndAlso => {
            let t1 = expr_text(t + "("@, *b.left, tabs, sl, m) + " && "@;
            expr_text(t1, *b.right, tabs, sl, m) + ")"@
        },
        BinOp::OrElse => {
            let t1 = expr_text(t + "("@, *b.left, tabs, sl, m) + " || "@;
            expr_text(t1, *b.right, tabs, sl, m) + ")"@
        },
        _ => {
            let name = match b.op {
                BinOp::Add => "binop::add"@,
                BinOp::Mul => "binop::mul"@,
                BinOp::Div => "binop::div"@,
                BinOp::Sub => "binop::sub"@,
                BinOp::Rem => "binop::rem"@,
                BinOp::Dot => "binop::dot"@,
                BinOp::Cross => "binop::cross"@,
                _ => "binop::pow"@,
            };
            let t1 = expr_text((t + name) + "(&"@, *b.left, tabs, sl, m) + ", &"@;
            expr_text(t1, *b.right, tabs, sl, m) + ")"@
        },
    }
}

/// A comparison through the named dispatch functions.
pub open spec fn compare_text(t: Seq<char>, c: Compare, tabs: nat, sl: nat, m: Module) -> Seq<
    char,
>
    decreases c, 0int,
{
    let name = match c.op {
        CompareOp::Less => "compop::less"@,
        CompareOp::LessOrEqual => "compop::less_or_equal"@,
        CompareOp::Greater => "compop::greater"@,
        CompareOp::GreaterOrEqual => "compop::greater_or_equal"@,
        CompareOp::Equal => "compop::equal"@,
        CompareOp::NotEqual => "compop::not_equal"@,
    };
    let t1 = expr_text((t + name) + "(&"@, *c.left, tabs, sl, m) + ", &"@;
    expr_text(t1, *c.right, tabs, sl, m) + ")"@
}

/// A unary operation.
pub open spec fn unop_text(
    t: Seq<char>,
    u: UnOpExpression,
    tabs: nat,
    sl: nat,
    m: Module,
) -> Seq<char>
    decreases u, 0int,
{
    let name = match u.op {
        UnOp::Not => "unop::not"@,
        UnOp::Neg => "unop::neg"@,
    };
    expr_text((t + name) + "(&"@, *u.expr, tabs, sl, m) + ")"@
}

/// An array literal; every element is boxed exactly when the inferred
/// element type widens to `Variable`.
pub open spec fn array_text(t: Seq<char>, a: Array, tabs: nat, sl: nat, m: Module) -> Seq<char>
    decreases a, 2 * a.items.len() + 3,
{
    let t1 = array_items_text(t + "vec!["@, a, 0, items_boxed(a.items@), tabs, sl, m);
    t1 + "]"@
}

/// The elements of an array literal, from position `j` on.
pub open spec fn array_items_text(
    t: Seq<char>,
    a: Array,
    j: int,
    boxed: bool,
    tabs: nat,
    sl: nat,
    m: Module,
) -> Seq<char>
    decreases a, 2 * (a.items.len() - j) + 2,
{
    if j < 0 || j >= a.items.len() {
        t
    } else {
        let t1 = if boxed {
            expr_text(t + "variable(&"@, a.items[j], tabs, sl, m) + ")"@
        } else {
            expr_text(t, a.items[j], tabs, sl, m)
        };
        let t2 = if j + 1 != a.items.len() {
            t1 + ", "@
        } else {
            t1
        };
        array_items_text(t2, a, j + 1, boxed, tabs, sl, m)
    }
}

/// A 4-lane vector literal.  With no swizzle arguments it is a plain
/// 4-element literal; with swizzles it is a scoped block that first binds
/// each swizzle's source once by reference, then builds the lanes through
/// lane look-ups.
pub open spec fn vec4_text(t: Seq<char>, v: Vec4, tabs: nat, sl: nat, m: Module) -> Seq<char>
    decreases v, 2 * v.args.len() + 3,
{
    let extra = vec4_extra_from(v.args@, 0);
    if extra > 0 {
        let t1 = vec4_binders_text(t + "{\n"@, v, 0, tabs, sl, m);
        let t2 = (t1 + indent(bump(tabs, 1))) + "["@;
        let t3 = vec4_lanes_text(t2, v, 0, extra, tabs, sl, m) + "]\n"@;
        (t3 + indent(tabs)) + "}"@
    } else {
        let t1 = vec4_plain_text(t + "["@, v, 0, tabs, sl, m);
        t1 + "]"@
    }
}

/// The `let ref` binders for the swizzle arguments, from position `j` on.
pub open spec fn vec4_binders_text(
    t: Seq<char>,
    v: Vec4,
    j: int,
    tabs: nat,
    sl: nat,
    m: Module,
) -> Seq<char>
    decreases v, 2 * (v.args.len() - j) + 2,
{
    if j < 0 || j >= v.args.len() {
        t
    } else {
        let t1 = match v.args[j] {
            Expression::Swizzle(sw) => {
                let t0 = ((t + indent(bump(tabs, 1))) + "let ref _"@) + dec_rep(
                    bump(sl, swizzle_count_upto(v.args@, j)),
                ) + " = "@;
                expr_text(t0, *sw.expr, bump(tabs, 2), bump(sl, recount_upto(v.args@, j)), m)
                    + ";\n"@
            },
            _ => t,
        };
        vec4_binders_text(t1, v, j + 1, tabs, sl, m)
    }
}

/// One lane look-up through a swizzle's binder.
pub open spec fn lane_look_text(t: Seq<char>, id: nat, lane: nat) -> Seq<char> {
    (((t + "index::vec4_look_up(_"@) + dec_rep(id)) + ", "@) + dec_rep(lane) + ")"@
}

/// The lane list of a swizzled vector literal, from position `j` on;
/// trailing arguments are dropped once the swizzles have filled the lanes.
pub open spec fn vec4_lanes_text(
    t: Seq<char>,
    v: Vec4,
    j: int,
    extra: nat,
    tabs: nat,
    sl: nat,
    m: Module,
) -> Seq<char>
    decreases v, 2 * (v.args.len() - j) + 2,
{
    if j < 0 || j >= v.args.len() {
        t
    } else {
        let t1 = match v.args[j] {
            Expression::Swizzle(sw) => {
                let id = bump(sl, swizzle_count_upto(v.args@, j));
                let ta = lane_look_text(t, id, sw.sw0 as nat) + ", "@;
                let tb = lane_look_text(ta, id, sw.sw1 as nat);
                match sw.sw2 {
                    Option::Some(sw2) => {
                        let tc = lane_look_text(tb + ", "@, id, sw2 as nat);
                        match sw.sw3 {
                            Option::Some(sw3) => lane_look_text(tc + ", "@, id, sw3 as nat),
                            Option::None => tc,
                        }
                    },
                    Option::None => tb,
                }
            },
            _ => expr_text(t, v.args[j], bump(tabs, 2), sl, m),
        };
        if j + 1 + extra >= v.args.len() {
            t1
        } else {
            let t2 = if j + 1 != v.args.len() {
                t1 + ", "@
            } else {
                t1
            };
            vec4_lanes_text(t2, v, j + 1, extra, tabs, sl, m)
        }
    }
}

/// The elements of a swizzle-free vector literal, from position `j` on.
pub open spec fn vec4_plain_text(
    t: Seq<char>,
    v: Vec4,
    j: int,
    tabs: nat,
    sl: nat,
    m: Module,
) -> Seq<char>
    decreases v, 2 * (v.args.len() - j) + 2,
{
    if j < 0 || j >= v.args.len() {
        t
    } else {
        let t1 = expr_text(t, v.args[j], tabs, sl, m);
        let t2 = if j + 1 != v.args.len() {
            t1 + ", "@
        } else {
            t1
        };
        vec4_plain_text(t2, v, j + 1, tabs, sl, m)
    }
}

/// An assignment.  A binding introduction opens a fresh positional name;
/// `Store` goes through the runtime's `assign`; the compound operators emit
/// compound assignments, with `pow` rewritten through its dispatch
/// function.  An assignment whose left side is not an item emits nothing.
pub open spec fn assign_text(t: Seq<char>, a: Assign, tabs: nat, sl: nat, m: Module) -> Seq<char>
    decreases a, 2int,
{
    match *a.left {
        Expression::Item(it) => {
            if it.ids.len() == 0 {
                match a.op {
                    AssignOp::Assign => {
                        let t1 = (t + "let mut _"@) + dec_rep(sl) + " = "@;
                        expr_text(t1, *a.right, tabs, sl, m)
                    },
                    AssignOp::Store => {
                        let t1 = expr_text(t + "assign(&mut "@, *a.left, tabs, sl, m) + ", &"@;
                        expr_text(t1, *a.right, tabs, sl, m) + ")"@
                    },
                    AssignOp::Pow => {
                        let t1 = expr_text(t, *a.left, tabs, sl, m) + " = binop::pow(&"@;
                        let t2 = expr_text(t1, *a.left, tabs, sl, m) + ", &"@;
                        expr_text(t2, *a.right, tabs, sl, m) + ")"@
                    },
                    _ => {
                        let op = match a.op {
                            AssignOp::Add => " += "@,
                            AssignOp::Sub => " -= "@,
                            AssignOp::Mul => " *= "@,
                            AssignOp::Div => " /= "@,
                            _ => " %= "@,
                        };
                        let t1 = expr_text(t, *a.left, tabs, sl, m) + op;
                        expr_text(t1, *a.right, tabs, sl, m)
                    },
                }
            } else {
                let t1 = expr_text(t, *a.left, tabs, sl, m) + " = "@;
                expr_text(t1, *a.right, tabs, sl, m)
            }
        },
        _ => t,
    }
}

/// An `if` with its arms.
pub open spec fn if_text(t: Seq<char>, i: If, tabs: nat, sl: nat, m: Module) -> Seq<char>
    decreases i, 2 * elif_count(i) + 3,
{
    let t1 = expr_text(t + "if cond(&"@, *i.cond, tabs, sl, m) + ") {\n"@;
    let t2 = block_text(t1, i.true_block.expressions@, 0, bump(tabs, 1), sl, m) + "\n"@;
    let t3 = (t2 + indent(tabs)) + "}"@;
    let t4 = elifs_text(t3, i, 0, tabs, sl, m);
    match i.else_block {
        Option::Some(b) => {
            let t5 = block_text(t4 + " else {\n"@, b.expressions@, 0, bump(tabs, 1), sl, m)
                + "\n"@;
            (t5 + indent(tabs)) + "}"@
        },
        Option::None => t4,
    }
}

/// The number of `else if` arms: conditions and blocks are paired.
pub open spec fn elif_count(i: If) -> int {
    if i.else_if_conds.len() <= i.else_if_blocks.len() {
        i.else_if_conds.len() as int
    } else {
        i.else_if_blocks.len() as int
    }
}

/// The `else if` arms, from position `j` on.
pub open spec fn elifs_text(t: Seq<char>, i: If, j: int, tabs: nat, sl: nat, m: Module) -> Seq<
    char,
>
    decreases i, 2 * (elif_count(i) - j) + 2,
{
    if j < 0 || j >= elif_count(i) {
        t
    } else {
        let t1 = expr_text(t + " else if cond(&"@, i.else_if_conds[j], bump(tabs, 1), sl, m)
            + ") {\n"@;
        let t2 = block_text(t1, i.else_if_blocks[j].expressions@, 0, bump(tabs, 1), sl, m)
            + "\n"@;
        let t3 = (t2 + indent(tabs)) + "}"@;
        elifs_text(t3, i, j + 1, tabs, sl, m)
    }
}

/// An object literal: a scoped block filling a fresh map.
pub open spec fn object_text(t: Seq<char>, o: Object, tabs: nat, sl: nat, m: Module) -> Seq<char>
    decreases o, 2 * o.key_values.len() + 3,
{
    let t1 = ((t + "{\n"@) + indent(bump(tabs, 1))) + "let mut _"@;
    let t2 = t1 + dec_rep(sl) + ": HashMap<Arc<String>, Variable> = HashMap::new();\n"@;
    let t3 = object_entries_text(t2, o, 0, tabs, sl, m);
    let t4 = ((t3 + indent(bump(tabs, 1))) + "Arc::new(_"@) + dec_rep(sl) + ")\n"@;
    (t4 + indent(tabs)) + "}"@
}

/// The entries of an object literal, from position `j` on.
pub open spec fn object_entries_text(
    t: Seq<char>,
    o: Object,
    j: int,
    tabs: nat,
    sl: nat,
    m: Module,
) -> Seq<char>
    decreases o, 2 * (o.key_values.len() - j) + 2,
{
    if j < 0 || j >= o.key_values.len() {
        t
    } else {
        let t1 = ((t + indent(bump(tabs, 1))) + "_"@) + dec_rep(sl) + ".insert(Arc::new("@;
        let t2 = (t1 + debug_str_of(o.key_values[j].key@)) + ".into()), "@;
        let t3 = expr_text(t2 + "variable(&"@, o.key_values[j].value, bump(tabs, 1), sl, m)
            + ")"@;
        object_entries_text(t3 + ");\n"@, o, j + 1, tabs, sl, m)
    }
}

/// A closure literal with positional parameter names.
pub open spec fn closure_text(t: Seq<char>, cl: Closure, tabs: nat, sl: nat, m: Module) -> Seq<
    char,
>
    decreases cl, 2 * cl.args.len() + 3,
{
    let t1 = closure_params_text(t + "|"@, cl, 0, sl);
    let t2 = (t1 + "| {\n"@) + indent(bump(tabs, 1));
    let t3 = expr_text(t2, *cl.expr, bump(tabs, 1), bump(sl, cl.args.len() as nat), m) + "\n"@;
    (t3 + indent(tabs)) + "}"@
}

/// The parameter names of a closure, from position `j` on.
pub open spec fn closure_params_text(t: Seq<char>, cl: Closure, j: int, sl: nat) -> Seq<char>
    decreases cl, 2 * (cl.args.len() - j) + 2,
{
    if j < 0 || j >= cl.args.len() {
        t
    } else {
        let t1 = (t + "_"@) + dec_rep(bump(sl, j as nat));
        let t2 = if j + 1 < cl.args.len() {
            t1 + ", "@
        } else {
            t1
        };
        closure_params_text(t2, cl, j + 1, sl)
    }
}

/// A closure call: the parenthesized item, then the arguments.
pub open spec fn call_closure_text(
    t: Seq<char>,
    cc: CallClosure,
    tabs: nat,
    sl: nat,
    m: Module,
) -> Seq<char>
    decreases cc, 2 * cc.args.len() + 3,
{
    let t1 = item_text(t + "("@, cc.item, bump(tabs, 1), sl, m) + ")("@;
    let t2 = call_closure_args_text(t1, cc, 0, tabs, sl, m);
    t2 + ")"@
}

/// The arguments of a closure call, from position `j` on.
pub open spec fn call_closure_args_text(
    t: Seq<char>,
    cc: CallClosure,
    j: int,
    tabs: nat,
    sl: nat,
    m: Module,
) -> Seq<char>
    decreases cc, 2 * (cc.args.len() - j) + 2,
{
    if j < 0 || j >= cc.args.len() {
        t
    } else {
        let t1 = expr_text(t, cc.args[j], bump(tabs, 1), sl, m);
        let t2 = if j + 1 < cc.args.len() {
            t1 + ", "@
        } else {
            t1
        };
        call_closure_args_text(t2, cc, j + 1, tabs, sl, m)
    }
}

/// The statements of a block, from position `j` on.  Statement `j` is
/// emitted at the stack length raised by the binding introductions before
/// it; all but the last statement are terminated.
pub open spec fn block_text(
    t: Seq<char>,
    exprs: Seq<Expression>,
    j: int,
    tabs: nat,
    sl: nat,
    m: Module,
) -> Seq<char>
    decreases exprs, exprs.len() - j,
{
    if j < 0 || j >= exprs.len() {
        t
    } else {
        let t1 = expr_text(t + indent(tabs), exprs[j], tabs, bump(sl, offset_upto(exprs, j)), m);
        let t2 = if j + 1 != exprs.len() {
            t1 + ";\n"@
        } else {
            t1
        };
        block_text(t2, exprs, j + 1, tabs, sl, m)
    }
}

/// A lowered type.
pub open spec fn type_text(t: Seq<char>, ty: Type) -> Seq<char>
    decreases ty, 0int,
{
    match ty {
        Type::F64 => t + "f64"@,
        Type::Bool => t + "bool"@,
        Type::Vec4 => t + "[f32; 4]"@,
        Type::Text => t + "str"@,
        Type::Array(inner) => {
            let t1 = t + "Vec<"@;
            let t2 = if *inner is Text {
                t1 + "&"@
            } else {
                t1
            };
            type_text(t2, *inner) + ">"@
        },
        Type::Secret(inner) => type_text(t + "Secret<"@, *inner) + ", f64>"@,
        Type::Closure(ct) => {
            let t1 = closure_tys_text(t + "Fn("@, *ct, 0) + ")"@;
            if ct.ret is Void {
                t1
            } else {
                type_text(t1 + " -> "@, ct.ret)
            }
        },
        Type::Void => t,
        Type::Other => t,
    }
}

/// The argument types of a closure type, from position `j` on.
pub open spec fn closure_tys_text(t: Seq<char>, ct: ClosureType, j: int) -> Seq<char>
    decreases ct, 2 * (ct.tys.len() - j) + 2,
{
    if j < 0 || j >= ct.tys.len() {
        t
    } else {
        let t1 = type_text(t, ct.tys[j]);
        let t2 = if j + 1 < ct.tys.len() {
            t1 + ", "@
        } else {
            t1
        };
        closure_tys_text(t2, ct, j + 1)
    }
}

/// A function definition: stripped name, signature and body; a void
/// function's body ends as a statement, a returning one as an expression.
pub open spec fn fn_text(t: Seq<char>, f: Function, m: Module) -> Seq<char>
    decreases f, 2 * f.args.len() + 3,
{
    let t1 = ((t + "fn "@) + stripped(f.name@)) + "("@;
    let t2 = fn_args_text(t1, f, 0);
    let t3 = if f.ret is Void {
        t2 + ") {\n"@
    } else {
        type_text(t2 + ") -> "@, f.ret) + " {\n"@
    };
    let t4 = block_text(t3, f.block.expressions@, 0, 1, f.args.len() as nat, m);
    if f.ret is Void {
        (t4 + ";\n"@) + "}\n"@
    } else {
        (t4 + "\n"@) + "}\n"@
    }
}

/// The declared arguments of a function, from position `j` on.
pub open spec fn fn_args_text(t: Seq<char>, f: Function, j: int) -> Seq<char>
    decreases f, 2 * (f.args.len() - j) + 2,
{
    if j < 0 || j >= f.args.len() {
        t
    } else {
        let t1 = if f.args[j].mutable {
            ((t + "mut _"@) + dec_rep(j as nat)) + ": &mut "@
        } else {
            ((t + "_"@) + dec_rep(j as nat)) + ": &"@
        };
        let t2 = type_text(t1, f.args[j].ty);
        let t3 = if j + 1 != f.args.len() {
            t2 + ", "@
        } else {
            t2
        };
        fn_args_text(t3, f, j + 1)
    }
}

/// The fixed preamble of every generated file.
pub open spec fn preamble_text() -> Seq<char> {
    "#![allow(unused_imports)]\n#![allow(unreachable_code)]\n\nextern crate dyon;\nextern crate dyon_to_rust;\n\nuse std::sync::Arc;\nuse std::collections::HashMap;\n\nuse dyon::{Variable, Object};\nuse dyon_to_rust::intrinsics::*;\nuse dyon_to_rust::*;\n\n"@
}

/// The functions of a module, from position `j` on.
pub open spec fn fns_text(t: Seq<char>, m: Module, j: int) -> Seq<char>
    decreases m, m.functions.len() - j,
{
    if j < 0 || j >= m.functions.len() {
        t
    } else {
        fns_text(fn_text(t, m.functions[j], m), m, j + 1)
    }
}

/// A whole module: the preamble, then every function.
pub open spec fn module_text(t: Seq<char>, m: Module) -> Seq<char> {
    fns_text(t + preamble_text(), m, 0)
}

/// On which expressions emission succeeds: all loaded call targets are in
/// range, all item stack ids are at most the current stack length, and no
/// unsupported variant (a swizzle outside a vector literal, a link) occurs
/// in an emitted position.
pub open spec fn expr_ok(e: Expression, sl: nat, m: Module) -> bool
    decreases e, 0int,
{
    match e {
        Expression::Call(c) => call_ok(c, sl, m),
        Expression::Text(_) => true,
        Expression::For(f) => {
            &&& expr_ok(*f.init, sl, m)
            &&& expr_ok(*f.cond, bump(sl, 1), m)
            &&& block_ok(f.block.expressions@, 0, bump(sl, 1), m)
            &&& expr_ok(*f.step, sl, m)
        },
        Expression::ForN(f) => forn_ok(*f, sl, m),
        Expression::Sum(f) => forn_ok(*f, sl, m),
        Expression::Prod(f) => forn_ok(*f, sl, m),
        Expression::Number(_) => true,
        Expression::Bool(_) => true,
        Expression::Item(it) => item_ok(it, sl, m),
        Expression::BinOp(b) => expr_ok(*b.left, sl, m) && expr_ok(*b.right, sl, m),
        Expression::Vec4(v) => vec4_binders_ok(v, 0, sl, m) && vec4_lanes_ok(
            v,
            0,
            vec4_extra_from(v.args@, 0),
            sl,
            m,
        ),
        Expression::Array(a) => array_items_ok(a, 0, sl, m),
        Expression::Assign(a) => assign_ok(*a, sl, m),
        Expression::All(f) => forn_ok(*f, sl, m),
        Expression::Any(f) => forn_ok(*f, sl, m),
        Expression::Compare(c) => expr_ok(*c.left, sl, m) && expr_ok(*c.right, sl, m),
        Expression::If(i) => if_ok(*i, sl, m),
        Expression::UnOp(u) => expr_ok(*u.expr, sl, m),
        Expression::Max(f) => forn_ok(*f, sl, m),
        Expression::Min(f) => forn_ok(*f, sl, m),
        Expression::Sift(f) => forn_ok(*f, sl, m),
        Expression::Block(b) => block_ok(b.expressions@, 0, sl, m),
        Expression::Break(_) => true,
        Expression::Continue(_) => true,
        Expression::Object(o) => object_entries_ok(o, 0, sl, m),
        Expression::Return(e2) => expr_ok(*e2, sl, m),
        Expression::Closure(cl) => expr_ok(*cl.expr, bump(sl, cl.args.len() as nat), m),
        Expression::CallClosure(cc) => {
            &&& item_ok(cc.item, sl, m)
            &&& call_closure_args_ok(*cc, 0, sl, m)
        },
        Expression::Swizzle(_) => false,
        Expression::Link => false,
    }
}

/// A call is emittable when its loaded index is in range and its arguments
/// are emittable at the stack length raised by the return slot.
pub open spec fn call_ok(c: Call, sl: nat, m: Module) -> bool
    decreases c, 2 * c.args.len() + 3,
{
    &&& (c.f_index matches Option::Some(fi) ==> fi < m.functions.len())
    &&& call_args_ok(c, 0, bump(sl, return_var(c, m)), m)
}

/// The arguments of a call are emittable, from position `j` on.
pub open spec fn call_args_ok(c: Call, j: int, sl: nat, m: Module) -> bool
    decreases c, 2 * (c.args.len() - j) + 1,
{
    if j < 0 || j >= c.args.len() {
        true
    } else {
        expr_ok(c.args[j], sl, m) && call_args_ok(c, j + 1, sl, m)
    }
}

/// The shared success condition of the numeric loops.
pub open spec fn forn_ok(f: ForN, sl: nat, m: Module) -> bool
    decreases f, 0int,
{
    &&& (f.start matches Option::Some(e) ==> expr_ok(*e, sl, m))
    &&& expr_ok(*f.end, sl, m)
    &&& block_ok(f.block.expressions@, 0, bump(sl, 1), m)
}

/// An item is emittable when its resolved stack id does not exceed the
/// stack length and its computed indices are emittable.
pub open spec fn item_ok(it: Item, sl: nat, m: Module) -> bool
    decreases it, 2 * it.ids.len() + 3,
{
    &&& (it.static_stack_id matches Option::Some(s) ==> s <= sl)
    &&& item_ids_ok(it, 0, sl, m)
}

/// The id path of an item is emittable, from position `j` on.
pub open spec fn item_ids_ok(it: Item, j: int, sl: nat, m: Module) -> bool
    decreases it, 2 * (it.ids.len() - j) + 2,
{
    if j < 0 || j >= it.ids.len() {
        true
    } else {
        let head = match it.ids[j] {
            Id::Expr(e) => expr_ok(*e, bump(sl, j as nat), m),
            _ => true,
        };
        head && item_ids_ok(it, j + 1, sl, m)
    }
}

/// The elements of an array literal are emittable, from position `j` on.
pub open spec fn array_items_ok(a: Array, j: int, sl: nat, m: Module) -> bool
    decreases a, 2 * (a.items.len() - j) + 2,
{
    if j < 0 || j >= a.items.len() {
        true
    } else {
        expr_ok(a.items[j], sl, m) && array_items_ok(a, j + 1, sl, m)
    }
}

/// The swizzle sources of a vector literal are emittable, from position
/// `j` on, each at the stack length raised by the lanes of the swizzles
/// before it.
pub open spec fn vec4_binders_ok(v: Vec4, j: int, sl: nat, m: Module) -> bool
    decreases v, 2 * (v.args.len() - j) + 2,
{
    if j < 0 || j >= v.args.len() {
        true
    } else {
        let head = match v.args[j] {
            Expression::Swizzle(sw) => expr_ok(
                *sw.expr,
                bump(sl, recount_upto(v.args@, j)),
                m,
            ),
            _ => true,
        };
        head && vec4_binders_ok(v, j + 1, sl, m)
    }
}

/// The plain arguments that the lane list reaches are emittable, from
/// position `j` on; like the lane text, the walk stops once the swizzles
/// have filled the lanes.
pub open spec fn vec4_lanes_ok(v: Vec4, j: int, extra: nat, sl: nat, m: Module) -> bool
    decreases v, 2 * (v.args.len() - j) + 2,
{
    if j < 0 || j >= v.args.len() {
        true
    } else {
        let head = match v.args[j] {
            Expression::Swizzle(_) => true,
            _ => expr_ok(v.args[j], sl, m),
        };
        if j + 1 + extra >= v.args.len() {
            head
        } else {
            head && vec4_lanes_ok(v, j + 1, extra, sl, m)
        }
    }
}

/// An assignment is emittable; what it emits decides which sides are read.
pub open spec fn assign_ok(a: Assign, sl: nat, m: Module) -> bool
    decreases a, 2int,
{
    match *a.left {
        Expression::Item(it) => {
            if it.ids.len() == 0 {
                match a.op {
                    AssignOp::Assign => expr_ok(*a.right, sl, m),
                    _ => item_ok(it, sl, m) && expr_ok(*a.right, sl, m),
                }
            } else {
                item_ok(it, sl, m) && expr_ok(*a.right, sl, m)
            }
        },
        _ => true,
    }
}

/// An `if` is emittable when its condition, arms and `else` are.
pub open spec fn if_ok(i: If, sl: nat, m: Module) -> bool
    decreases i, 2 * elif_count(i) + 3,
{
    &&& expr_ok(*i.cond, sl, m)
    &&& block_ok(i.true_block.expressions@, 0, sl, m)
    &&& elifs_ok(i, 0, sl, m)
    &&& (i.else_block matches Option::Some(b) ==> block_ok(b.expressions@, 0, sl, m))
}

/// The `else if` arms are emittable, from position `j` on.
pub open spec fn elifs_ok(i: If, j: int, sl: nat, m: Module) -> bool
    decreases i, 2 * (elif_count(i) - j) + 2,
{
    if j < 0 || j >= elif_count(i) {
        true
    } else {
        &&& expr_ok(i.else_if_conds[j], sl, m)
        &&& block_ok(i.else_if_blocks[j].expressions@, 0, sl, m)
        &&& elifs_ok(i, j + 1, sl, m)
    }
}

/// The entries of an object literal are emittable, from position `j` on.
pub open spec fn object_entries_ok(o: Object, j: int, sl: nat, m: Module) -> bool
    decreases o, 2 * (o.key_values.len() - j) + 2,
{
    if j < 0 || j >= o.key_values.len() {
        true
    } else {
        expr_ok(o.key_values[j].value, sl, m) && object_entries_ok(o, j + 1, sl, m)
    }
}

/// The arguments of a closure call are emittable, from position `j` on.
pub open spec fn call_closure_args_ok(cc: CallClosure, j: int, sl: nat, m: Module) -> bool
    decreases cc, 2 * (cc.args.len() - j) + 2,
{
    if j < 0 || j >= cc.args.len() {
        true
    } else {
        expr_ok(cc.args[j], sl, m) && call_closure_args_ok(cc, j + 1, sl, m)
    }
}

/// The statements of a block are emittable, from position `j` on, each at
/// the stack length raised by the binding introductions before it.
pub open spec fn block_ok(exprs: Seq<Expression>, j: int, sl: nat, m: Module) -> bool
    decreases exprs, exprs.len() - j,
{
    if j < 0 || j >= exprs.len() {
        true
    } else {
        expr_ok(exprs[j], bump(sl, offset_upto(exprs, j)), m) && block_ok(exprs, j + 1, sl, m)
    }
}

/// A function is emittable when its body is, starting at its arity.
pub open spec fn fn_ok(f: Function, m: Module) -> bool {
    block_ok(f.block.expressions@, 0, f.args.len() as nat, m)
}

/// The functions of a module are emittable, from position `j` on.
pub open spec fn fns_ok(m: Module, j: int) -> bool
    decreases m.functions.len() - j,
{
    if j < 0 || j >= m.functions.len() {
        true
    } else {
        fn_ok(m.functions[j], m) && fns_ok(m, j + 1)
    }
}

/// A module is emittable when every function is.
pub open spec fn module_ok(m: Module) -> bool {
    fns_ok(m, 0)
}

} // verus!
