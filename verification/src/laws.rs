//! The library's laws: proved statements about the emitted text that tie
//! the naming discipline, the boxing policy, the mutability tags and the
//! aggregation-loop layouts to the definitions in [`crate::render`].

use vstd::prelude::*;

use crate::ast::{Array, Call, Expression, Function, ForN, Item, Module, Vec4};
use crate::infer::items_boxed;
use crate::render::{
    all_any_text, array_items_text, array_text, block_text, bump, call_args_text, call_text,
    expr_text, fn_args_text, is_intro, item_ids_text, item_text, lane_look_text, module_text,
    offset_upto, return_var, sift_text, sum_prod_text, swizzle_count_upto, vec4_lanes_text,
};
use crate::textutil::{call_arg_is_mut, dec_rep, indent, stripped};

verus! {

/// Law (stack discipline): inside a block, statement `j` is emitted at the
/// stack length raised by exactly the binding introductions before it, and
/// a binding introduction at position `j` binds the positional name
/// numbered by that raised stack length.
pub proof fn lemma_stack_discipline(
    t: Seq<char>,
    exprs: Seq<Expression>,
    j: int,
    tabs: nat,
    sl: nat,
    m: Module,
)
    requires
        0 <= j < exprs.len(),
        is_intro(exprs[j]),
    ensures
        exprs[j] matches Expression::Assign(a) && block_text(t, exprs, j, tabs, sl, m)
            == block_text(
            {
                let stmt = expr_text(
                    (((t + indent(tabs)) + "let mut _"@) + dec_rep(bump(sl, offset_upto(exprs, j))))
                        + " = "@,
                    *a.right,
                    tabs,
                    bump(sl, offset_upto(exprs, j)),
                    m,
                );
                if j + 1 != exprs.len() {
                    stmt + ";\n"@
                } else {
                    stmt
                }
            },
            exprs,
            j + 1,
            tabs,
            sl,
            m,
        ),
{
    let k = bump(sl, offset_upto(exprs, j));
    let tind = t + indent(tabs);
    match exprs[j] {
        Expression::Assign(a) => {
            assert(expr_text(tind, exprs[j], tabs, k, m) == crate::render::assign_text(
                tind,
                *a,
                tabs,
                k,
                m,
            ));
            assert(crate::render::assign_text(tind, *a, tabs, k, m) == expr_text(
                ((tind + "let mut _"@) + dec_rep(k)) + " = "@,
                *a.right,
                tabs,
                k,
                m,
            ));
        },
        _ => {},
    }
}

/// Law (item resolution): an item whose resolved stack id is `s`, emitted
/// at stack length `sl`, renders its positional name as `_` followed by
/// the decimal digits of `sl - s`, before its id path.
pub proof fn lemma_item_resolution(t: Seq<char>, it: Item, tabs: nat, sl: nat, m: Module, s: usize)
    requires
        it.static_stack_id == Option::Some(s),
        s <= sl,
    ensures
        item_text(t, it, tabs, sl, m) == item_ids_text(
            (t + "_"@) + dec_rep((sl - s) as nat),
            it,
            0,
            tabs,
            sl,
            m,
        ),
{
}

/// Two vector-literal arguments have the same lane shape when they are
/// swizzles over the same lane indices (their source expressions may
/// differ), or are the very same non-swizzle expression.
pub open spec fn same_lane_shape(x: Expression, y: Expression) -> bool {
    match (x, y) {
        (Expression::Swizzle(sa), Expression::Swizzle(sb)) => {
            &&& sa.sw0 == sb.sw0
            &&& sa.sw1 == sb.sw1
            &&& sa.sw2 == sb.sw2
            &&& sa.sw3 == sb.sw3
        },
        _ => x == y && !(x is Swizzle),
    }
}

/// Arguments of the same lane shape have swizzles at the same positions.
proof fn lemma_swizzle_counts_agree(a: Seq<Expression>, b: Seq<Expression>, j: int)
    requires
        a.len() == b.len(),
        forall|k: int| 0 <= k < a.len() ==> same_lane_shape(#[trigger] a[k], b[k]),
        j <= a.len(),
    ensures
        swizzle_count_upto(a, j) == swizzle_count_upto(b, j),
    decreases j,
{
    if 0 < j <= a.len() {
        lemma_swizzle_counts_agree(a, b, j - 1);
    }
}

/// Law (swizzle single evaluation): the lane list of a swizzled vector
/// literal does not depend on the swizzles' source expressions — the lanes
/// reference only the `ref` binders, so each source is evaluated exactly
/// once, in its binder, however many lanes the swizzle feeds.
pub proof fn lemma_swizzle_single_evaluation(
    t: Seq<char>,
    a: Vec4,
    b: Vec4,
    j: int,
    extra: nat,
    tabs: nat,
    sl: nat,
    m: Module,
)
    requires
        a.args.len() == b.args.len(),
        forall|k: int| 0 <= k < a.args.len() ==> same_lane_shape(#[trigger] a.args[k], b.args[k]),
        j >= 0,
    ensures
        vec4_lanes_text(t, a, j, extra, tabs, sl, m) == vec4_lanes_text(
            t,
            b,
            j,
            extra,
            tabs,
            sl,
            m,
        ),
    decreases a.args.len() - j,
{
    if j < a.args.len() {
        assert(same_lane_shape(a.args[j], b.args[j]));
        lemma_swizzle_counts_agree(a.args@, b.args@, j);
        let t1a = match a.args[j] {
            Expression::Swizzle(sw) => {
                let id = bump(sl, swizzle_count_upto(a.args@, j));
                let ta = lane_look_text(t, id, sw.sw0 as nat) + ", "@;
                let tb = lane_look_text(ta, id, sw.sw1 as nat);
                match sw.sw2 {
                    Option::Some(sw2) => {
                        let tc = lane_look_text(tb + ", "@, id, sw2 as nat);
                        match sw.sw3 {
                            Option::Some(sw3) => lane_look_text(tc + ", "@, id, sw3 as nat),
                            Option::None => tc,
                        }
                    },
                    Option::None => tb,
                }
            },
            _ => expr_text(t, a.args[j], bump(tabs, 2), sl, m),
        };
        if j + 1 + extra < a.args.len() {
            let t2 = if j + 1 != a.args.len() {
                t1a + ", "@
            } else {
                t1a
            };
            lemma_swizzle_single_evaluation(t2, a, b, j + 1, extra, tabs, sl, m);
        }
    }
}

/// Law (array typing): an array literal wraps each element in the boxing
/// coercion `variable(&..)` exactly when the inferred join of its element
/// types widens to `Variable`; otherwise every element is emitted bare.
pub proof fn lemma_array_boxing(t: Seq<char>, a: Array, j: int, tabs: nat, sl: nat, m: Module)
    requires
        0 <= j < a.items.len(),
    ensures
        items_boxed(a.items@) ==> array_items_text(t, a, j, true, tabs, sl, m)
            == array_items_text(
            {
                let elem = expr_text(t + "variable(&"@, a.items[j], tabs, sl, m) + ")"@;
                if j + 1 != a.items.len() {
                    elem + ", "@
                } else {
                    elem
                }
            },
            a,
            j + 1,
            true,
            tabs,
            sl,
            m,
        ),
        !items_boxed(a.items@) ==> array_items_text(t, a, j, false, tabs, sl, m)
            == array_items_text(
            {
                let elem = expr_text(t, a.items[j], tabs, sl, m);
                if j + 1 != a.items.len() {
                    elem + ", "@
                } else {
                    elem
                }
            },
            a,
            j + 1,
            false,
            tabs,
            sl,
            m,
        ),
        array_text(t, a, tabs, sl, m) == array_items_text(
            t + "vec!["@,
            a,
            0,
            items_boxed(a.items@),
            tabs,
            sl,
            m,
        ) + "]"@,
{
}

/// Law (mutability tag, call side): a call emits its name with the
/// parenthesized tag stripped, and prefixes argument `j` with `&mut `
/// exactly when the tag's `j`-th token is `mut`, else with `&`.
pub proof fn lemma_call_mut_prefix(t: Seq<char>, c: Call, j: int, tabs: nat, sl: nat, m: Module)
    requires
        0 <= j < c.args.len(),
        c.name@ != "where"@,
    ensures
        call_text(t, c, tabs, sl, m) == call_args_text(
            (t + stripped(c.name@)) + "("@,
            c,
            0,
            tabs,
            bump(sl, return_var(c, m)),
            m,
        ) + ")"@,
        call_args_text(t, c, j, tabs, sl, m) == call_args_text(
            {
                let arg = expr_text(
                    t + (if call_arg_is_mut(c.name@, j) {
                        "&mut "@
                    } else {
                        "&"@
                    }),
                    c.args[j],
                    tabs,
                    sl,
                    m,
                );
                if j + 1 != c.args.len() {
                    arg + ", "@
                } else {
                    arg
                }
            },
            c,
            j + 1,
            tabs,
            sl,
            m,
        ),
{
}

/// Law (mutability tag, signature side): a signature prefixes argument `j`
/// with `mut _j: &mut ` exactly when the argument is declared mutable,
/// else with `_j: &`.  Together with the call-side law, a name tag that
/// agrees with the declared mutability makes call sites and signature
/// prefixes match positionally.
pub proof fn lemma_signature_mut_prefix(t: Seq<char>, f: Function, j: int)
    requires
        0 <= j < f.args.len(),
    ensures
        fn_args_text(t, f, j) == fn_args_text(
            {
                let head = if f.args[j].mutable {
                    ((t + "mut _"@) + dec_rep(j as nat)) + ": &mut "@
                } else {
                    ((t + "_"@) + dec_rep(j as nat)) + ": &"@
                };
                let arg = crate::render::type_text(head, f.args[j].ty);
                if j + 1 != f.args.len() {
                    arg + ", "@
                } else {
                    arg
                }
            },
            f,
            j + 1,
        ),
{
}

/// Law (aggregator accumulator shape, `sum`/`prod`): with the default
/// start, the loop opens a brace, binds the induction variable `_sl` to
/// `0.0`, then the accumulator `_{sl+1}` to `0.0` for `sum` or `1.0` for
/// `prod`, and closes by yielding the accumulator.
pub proof fn lemma_sum_prod_locals(
    t: Seq<char>,
    f: ForN,
    tabs: nat,
    sl: nat,
    m: Module,
    is_sum: bool,
)
    requires
        f.start is None,
    ensures
        sum_prod_text(t, f, tabs, sl, m, is_sum) == ({
            let t2 = ((((t + "{\n"@) + indent(bump(tabs, 1))) + "let mut _"@) + dec_rep(sl)
                + ": f64 = "@) + "0.0"@ + ";\n"@;
            let t3 = ((t2 + indent(bump(tabs, 1))) + "let mut _"@) + dec_rep(bump(sl, 1)) + (
            if is_sum {
                ": f64 = 0.0;\n"@
            } else {
                ": f64 = 1.0;\n"@
            });
            let t4 = (t3 + indent(bump(tabs, 1))) + "loop {\n"@;
            let t5 = ((t4 + indent(bump(tabs, 2))) + "if _"@) + dec_rep(sl) + " >= "@;
            let t6 = expr_text(t5, *f.end, tabs, sl, m) + " {break};\n"@;
            let t7 = ((t6 + indent(bump(tabs, 2))) + "_"@) + dec_rep(bump(sl, 1)) + (if is_sum {
                " += {\n"@
            } else {
                " *= {\n"@
            });
            let t8 = block_text(t7, f.block.expressions@, 0, bump(tabs, 3), bump(sl, 1), m)
                + "\n"@;
            let t9 = (t8 + indent(bump(tabs, 2))) + "};\n"@;
            let t10 = ((t9 + indent(bump(tabs, 2))) + "_"@) + dec_rep(sl) + " += 1.0;\n"@;
            let t11 = (t10 + indent(bump(tabs, 1))) + "}\n"@;
            let t12 = ((t11 + indent(bump(tabs, 1))) + "_"@) + dec_rep(bump(sl, 1)) + "\n"@;
            (t12 + indent(tabs)) + "}"@
        }),
{
}

/// Law (aggregator accumulator shape, `all`/`any`): with the default
/// start, the loop binds the induction variable, then a boolean secret
/// accumulator initialized to `true` for `all` and `false` for `any`, then
/// the evaluated bound `_{sl+2}`, and pushes the breaking index into the
/// secret before an early exit.
pub proof fn lemma_all_any_locals(
    t: Seq<char>,
    f: ForN,
    tabs: nat,
    sl: nat,
    m: Module,
    is_all: bool,
)
    requires
        f.start is None,
    ensures
        all_any_text(t, f, tabs, sl, m, is_all) == ({
            let t2 = ((((t + "{\n"@) + indent(bump(tabs, 1))) + "let mut _"@) + dec_rep(sl)
                + ": f64 = "@) + "0.0"@ + ";\n"@;
            let t3 = ((t2 + indent(bump(tabs, 1))) + "let mut _"@) + dec_rep(bump(sl, 1)) + (
            if is_all {
                ": Secret<bool, f64> = Secret::new_bool(true);\n"@
            } else {
                ": Secret<bool, f64> = Secret::new_bool(false);\n"@
            });
            let t4 = ((t3 + indent(bump(tabs, 1))) + "let _"@) + dec_rep(bump(sl, 2))
                + ": f64 = "@;
            let t5 = expr_text(t4, *f.end, tabs, sl, m) + ";\n"@;
            let t6 = (t5 + indent(bump(tabs, 1))) + "loop {\n"@;
            let t7 = ((((t6 + indent(bump(tabs, 2))) + "if _"@) + dec_rep(sl) + " >= _"@)
                + dec_rep(bump(sl, 2))) + " {break};\n"@;
            let t8 = ((t7 + indent(bump(tabs, 2))) + "_"@) + dec_rep(bump(sl, 1)) + (if is_all {
                " &= {\n"@
            } else {
                " |= {\n"@
            });
            let t9 = block_text(t8, f.block.expressions@, 0, bump(tabs, 3), bump(sl, 1), m)
                + "\n"@;
            let t10 = (t9 + indent(bump(tabs, 2))) + "};\n"@;
            let t11 = ((t10 + indent(bump(tabs, 2))) + (if is_all {
                "if !cond(&_"@
            } else {
                "if cond(&_"@
            })) + dec_rep(bump(sl, 1)) + ") {\n"@;
            let t12 = (((t11 + indent(bump(tabs, 3))) + "_"@) + dec_rep(bump(sl, 1))
                + ".secret.push(_"@) + dec_rep(sl) + ");\n"@;
            let t13 = (t12 + indent(bump(tabs, 3))) + "break;\n"@;
            let t14 = (t13 + indent(bump(tabs, 2))) + "}\n"@;
            let t15 = ((t14 + indent(bump(tabs, 2))) + "_"@) + dec_rep(sl) + " += 1.0;\n"@;
            let t16 = (t15 + indent(bump(tabs, 1))) + "}\n"@;
            let t17 = ((t16 + indent(bump(tabs, 1))) + "_"@) + dec_rep(bump(sl, 1)) + "\n"@;
            (t17 + indent(tabs)) + "}"@
        }),
{
}

/// Law (aggregator accumulator shape, `sift`): with the default start, the
/// loop binds the induction variable, then an empty vector accumulator
/// `_{sl+1}`, binds each body result to `_{sl+3}` and pushes it.
pub proof fn lemma_sift_locals(t: Seq<char>, f: ForN, tabs: nat, sl: nat, m: Module)
    requires
        f.start is None,
    ensures
        sift_text(t, f, tabs, sl, m) == ({
            let t2 = ((((t + "{\n"@) + indent(bump(tabs, 1))) + "let mut _"@) + dec_rep(sl)
                + ": f64 = "@) + "0.0"@ + ";\n"@;
            let t3 = ((t2 + indent(bump(tabs, 1))) + "let mut _"@) + dec_rep(bump(sl, 1))
                + " = vec![];\n"@;
            let t4 = (t3 + indent(bump(tabs, 1))) + "loop {\n"@;
            let t5 = ((t4 + indent(bump(tabs, 2))) + "if _"@) + dec_rep(sl) + " >= "@;
            let t6 = expr_text(t5, *f.end, tabs, sl, m) + " {break};\n"@;
            let t7 = ((t6 + indent(bump(tabs, 2))) + "let _"@) + dec_rep(bump(sl, 3)) + " = {\n"@;
            let t8 = block_text(t7, f.block.expressions@, 0, bump(tabs, 3), bump(sl, 1), m)
                + "\n"@;
            let t9 = (t8 + indent(bump(tabs, 2))) + "};\n"@;
            let t10 = (((t9 + indent(bump(tabs, 2))) + "_"@) + dec_rep(bump(sl, 1)) + ".push(_"@)
                + dec_rep(bump(sl, 3)) + ");\n"@;
            let t11 = ((t10 + indent(bump(tabs, 2))) + "_"@) + dec_rep(sl) + " += 1.0;\n"@;
            let t12 = (t11 + indent(bump(tabs, 1))) + "}\n"@;
            let t13 = ((t12 + indent(bump(tabs, 1))) + "_"@) + dec_rep(bump(sl, 1)) + "\n"@;
            (t13 + indent(tabs)) + "}"@
        }),
{
}

/// Law (determinism): the emitted text is a pure function of the
/// tree — any two emissions of the same module from an empty buffer are
/// identical, character for character.
pub proof fn lemma_emission_deterministic(m: Module, r1: Seq<char>, r2: Seq<char>)
    requires
        r1 == module_text(Seq::empty(), m),
        r2 == module_text(Seq::empty(), m),
    ensures
        r1 == r2,
{
}

/// Law (aggregator accumulator shape, plain numeric loop): with the
/// default start, the statement-shaped loop binds only the induction
/// variable `_sl`, initialized to `0.0`; the bound is rendered inline in
/// the termination guard, with no accumulator and no surrounding braces.
pub proof fn lemma_forn_locals(t: Seq<char>, f: ForN, tabs: nat, sl: nat, m: Module)
    requires
        f.start is None,
        f.label is None,
    ensures
        crate::render::forn_text(t, f, tabs, sl, m) == ({
            let t2 = (((t + "let mut _"@) + dec_rep(sl) + ": f64 = "@) + "0.0"@) + ";\n"@;
            let t4 = (t2 + indent(tabs)) + "loop {\n"@;
            let t5 = ((t4 + indent(bump(tabs, 1))) + "if _"@) + dec_rep(sl) + " >= "@;
            let t6 = expr_text(t5, *f.end, tabs, sl, m) + " {break};\n"@;
            let t7 = (t6 + indent(bump(tabs, 1))) + "{\n"@;
            let t8 = block_text(t7, f.block.expressions@, 0, bump(tabs, 2), bump(sl, 1), m)
                + ";\n"@;
            let t9 = (t8 + indent(bump(tabs, 1))) + "}\n"@;
            let t10 = ((t9 + indent(bump(tabs, 1))) + "_"@) + dec_rep(sl) + " += 1.0;\n"@;
            (t10 + indent(tabs)) + "}"@
        }),
{
}

/// Law (aggregator accumulator shape, `max`/`min`): with the default
/// start, the loop binds the induction variable, a scalar secret
/// accumulator seeded with the non-number, a tracked witness index
/// `_{sl+2}` starting at `None`, and the evaluated bound `_{sl+3}`, which
/// the bound body-result binding shadows inside the loop; the tracked
/// index is pushed into the secret after the loop.
pub proof fn lemma_max_min_locals(
    t: Seq<char>,
    f: ForN,
    tabs: nat,
    sl: nat,
    m: Module,
    is_max: bool,
)
    requires
        f.start is None,
    ensures
        crate::render::max_min_text(t, f, tabs, sl, m, is_max) == ({
            let t2 = (((((t + "{\n"@) + indent(bump(tabs, 1))) + "let mut _"@) + dec_rep(sl)
                + ": f64 = "@) + "0.0"@) + ";\n"@;
            let t3 = ((t2 + indent(bump(tabs, 1))) + "let mut _"@) + dec_rep(bump(sl, 1))
                + ": Secret<f64, f64> = Secret::new_f64(::std::f64::NAN);\n"@;
            let t4 = ((t3 + indent(bump(tabs, 1))) + "let mut _"@) + dec_rep(bump(sl, 2))
                + ": Option<f64> = None;\n"@;
            let t5 = ((t4 + indent(bump(tabs, 1))) + "let _"@) + dec_rep(bump(sl, 3))
                + ": f64 = "@;
            let t6 = expr_text(t5, *f.end, tabs, sl, m) + ";\n"@;
            let t7 = (t6 + indent(bump(tabs, 1))) + "loop {\n"@;
            let t8 = ((((t7 + indent(bump(tabs, 2))) + "if _"@) + dec_rep(sl) + " >= _"@)
                + dec_rep(bump(sl, 3))) + " {break};\n"@;
            let t9 = ((t8 + indent(bump(tabs, 2))) + "let _"@) + dec_rep(bump(sl, 3)) + " = {\n"@;
            let t10 = block_text(t9, f.block.expressions@, 0, bump(tabs, 3), bump(sl, 1), m);
            let t11 = if is_max {
                t10 + "\n"@
            } else {
                t10
            };
            let t12 = (t11 + indent(bump(tabs, 2))) + "};\n"@;
            let t13 = ((((t12 + indent(bump(tabs, 2))) + "if _"@) + dec_rep(bump(sl, 1))
                + ".val.is_nan() || _"@) + dec_rep(bump(sl, 3)) + ".value() "@) + (if is_max {
                "> _"@
            } else {
                "< _"@
            });
            let t14 = (t13 + dec_rep(bump(sl, 1))) + ".value() {\n"@;
            let t15 = (((t14 + indent(bump(tabs, 3))) + "_"@) + dec_rep(bump(sl, 1)) + " = _"@)
                + dec_rep(bump(sl, 3)) + ".into();\n"@;
            let t16 = (((t15 + indent(bump(tabs, 3))) + "_"@) + dec_rep(bump(sl, 2))
                + " = Some(_"@) + dec_rep(sl) + ");\n"@;
            let t17 = (t16 + indent(bump(tabs, 2))) + "}\n"@;
            let t18 = ((t17 + indent(bump(tabs, 2))) + "_"@) + dec_rep(sl) + " += 1.0;\n"@;
            let t19 = (t18 + indent(bump(tabs, 1))) + "}\n"@;
            let t20 = ((((t19 + indent(bump(tabs, 1))) + "if let Some(_"@) + dec_rep(sl)
                + ") = _"@) + dec_rep(bump(sl, 2))) + " {\n"@;
            let t21 = (((t20 + indent(bump(tabs, 2))) + "_"@) + dec_rep(bump(sl, 1))
                + ".secret.push(_"@) + dec_rep(sl) + ");\n"@;
            let t22 = (t21 + indent(bump(tabs, 1))) + "}\n"@;
            let t23 = ((t22 + indent(bump(tabs, 1))) + "_"@) + dec_rep(bump(sl, 1)) + "\n"@;
            (t23 + indent(tabs)) + "}"@
        }),
{
}

} // verus!
