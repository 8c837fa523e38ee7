//! The executable emitter.
//!
//! Each function appends the rendering of one node to the output buffer and
//! is proved to produce exactly the text that the corresponding spec
//! function in [`crate::render`] defines, succeeding exactly on the trees
//! the `_ok` predicates accept.  The buffer only ever grows at the end: on
//! an error it holds the old text, extended by a partial emission.

use vstd::prelude::*;

use crate::ast::{
    Array, Assign, AssignOp, BinOp, BinOpExpression, Call, CallClosure, Closure, ClosureType,
    Compare, CompareOp, Expression, Function, ForN, For, Id, If, Item, Module, Number, Object,
    Type, UnOp, UnOpExpression, Vec4,
};
use crate::render::{
    all_any_text, array_items_ok, array_items_text, array_text, assign_ok, assign_text, binop_text,
    block_ok, block_text, bool_text, bump, call_args_ok, call_args_text, call_closure_args_ok,
    call_closure_args_text, call_closure_text, call_ok, call_text, closure_params_text,
    closure_text, closure_tys_text, compare_text, elif_count, elifs_ok, elifs_text, expr_ok,
    expr_text, fn_args_text, fn_ok, fn_text, fns_ok, fns_text, for_text, forn_ok,
    forn_start_text, forn_text, if_ok, if_text, is_intro, item_ids_ok, item_ids_text, item_ok,
    item_text, lane_look_text, max_min_text, module_ok, module_text, number_text, object_entries_ok,
    object_entries_text, object_text, offset_upto, preamble_text, recount_upto, return_var,
    sift_text, sum_prod_text, swizzle_count_upto, swizzle_lanes, type_text, unop_text,
    vec4_binders_ok, vec4_binders_text, vec4_extra_from, vec4_lanes_ok, vec4_lanes_text,
    vec4_plain_text, vec4_text,
};
use crate::infer::{infer_items, items_boxed, ArrayType};
use crate::textutil::{arg_is_mut, debug_quote, emit_indent, emit_stripped, json_quote, push_dec,
    sat_add, str_eq, text_extends};

verus! {

broadcast use
    crate::textutil::lemma_append_extends,
    crate::textutil::lemma_extends_transitive,
    crate::textutil::lemma_extends_reflexive,
;

/// The expression variant outside the supported subset that an emission
/// hit: the report a fatal unsupported-node error carries.
#[derive(Debug, PartialEq, Eq, Clone, Copy)]
pub enum UnsupportedNode {
    /// A swizzle outside the lanes of a vector literal.
    Swizzle,
    /// A link block.
    Link,
}

/// Why an emission failed.
#[derive(Debug, PartialEq, Eq)]
pub enum EmitError {
    /// The tree holds an expression variant outside the supported subset;
    /// the offending variant is named.
    Unsupported(UnsupportedNode),
    /// A structural assumption was violated: a stack id exceeding the stack
    /// length, or a call to a function index outside the module.
    Malformed,
}

/// Emits a numeric literal.
fn emit_number(out: &mut String, n: &Number)
    ensures
        final(out)@ == number_text(old(out)@, *n),
        text_extends(old(out)@, final(out)@),
{
    out.append(n.repr.as_str());
    if n.whole {
        out.append(".0");
    }
}

/// Emits a boolean literal.
fn emit_bool(out: &mut String, b: bool)
    ensures
        final(out)@ == bool_text(old(out)@, b),
        text_extends(old(out)@, final(out)@),
{
    if b {
        out.append("true");
    } else {
        out.append("false");
    }
}

/// Emits one expression in value position.
pub fn emit_expression(
    out: &mut String,
    e: &Expression,
    tabs: usize,
    sl: usize,
    m: &Module,
) -> (r: Result<(), EmitError>)
    ensures
        r is Ok <==> expr_ok(*e, sl as nat, *m),
        r is Ok ==> final(out)@ == expr_text(old(out)@, *e, tabs as nat, sl as nat, *m),
        text_extends(old(out)@, final(out)@),
    decreases *e, 0int,
{
    match e {
        Expression::Call(c) => emit_call(out, c, tabs, sl, m),
        Expression::Text(s) => {
            let q = json_quote(s.as_str());
            out.append(q.as_str());
            Ok(())
        },
        Expression::For(f) => emit_for(out, f, tabs, sl, m),
        Expression::ForN(f) => emit_forn(out, f, tabs, sl, m),
        Expression::Sum(f) => emit_sum_prod(out, f, tabs, sl, m, true),
        Expression::Prod(f) => emit_sum_prod(out, f, tabs, sl, m, false),
        Expression::Number(n) => {
            emit_number(out, n);
            Ok(())
        },
        Expression::Bool(b) => {
            emit_bool(out, *b);
            Ok(())
        },
        Expression::Item(it) => emit_item(out, it, tabs, sl, m),
        Expression::BinOp(b) => emit_binop(out, b, tabs, sl, m),
        Expression::Vec4(v) => emit_vec4(out, v, tabs, sl, m),
        Expression::Array(a) => emit_array(out, a, tabs, sl, m),
        Expression::Assign(a) => emit_assign(out, a, tabs, sl, m),
        Expression::All(f) => emit_all_any(out, f, tabs, sl, m, true),
        Expression::Any(f) => emit_all_any(out, f, tabs, sl, m, false),
        Expression::Compare(c) => emit_compare(out, c, tabs, sl, m),
        Expression::If(i) => emit_if(out, i, tabs, sl, m),
        Expression::UnOp(u) => emit_unop(out, u, tabs, sl, m),
        Expression::Max(f) => emit_max_min(out, f, tabs, sl, m, true),
        Expression::Min(f) => emit_max_min(out, f, tabs, sl, m, false),
        Expression::Sift(f) => emit_sift(out, f, tabs, sl, m),
        Expression::Block(b) => {
            out.append("{\n");
            emit_block(out, &b.expressions, sat_add(tabs, 1), sl, m)?;
            emit_indent(out, tabs);
            out.append("}");
            Ok(())
        },
        Expression::Break(l) => {
            match l {
                Option::Some(label) => {
                    out.append("break '");
                    out.append(label.as_str());
                },
                Option::None => {
                    out.append("break");
                },
            }
            Ok(())
        },
        Expression::Continue(l) => {
            match l {
                Option::Some(label) => {
                    out.append("continue '");
                    out.append(label.as_str());
                },
                Option::None => {
                    out.append("continue");
                },
            }
            Ok(())
        },
        Expression::Object(o) => emit_object(out, o, tabs, sl, m),
        Expression::Return(e2) => {
            out.append("return ");
            emit_expression(out, e2, sat_add(tabs, 1), sl, m)
        },
        Expression::Closure(cl) => emit_closure(out, cl, sat_add(tabs, 1), sl, m),
        Expression::CallClosure(cc) => emit_call_closure(out, cc, sat_add(tabs, 1), sl, m),
        Expression::Swizzle(_) => Err(EmitError::Unsupported(UnsupportedNode::Swizzle)),
        Expression::Link => Err(EmitError::Unsupported(UnsupportedNode::Link)),
    }
}

/// Emits a call.
fn emit_call(out: &mut String, c: &Call, tabs: usize, sl: usize, m: &Module) -> (r: Result<
    (),
    EmitError,
>)
    ensures
        r is Ok <==> call_ok(*c, sl as nat, *m),
        r is Ok ==> final(out)@ == call_text(old(out)@, *c, tabs as nat, sl as nat, *m),
        text_extends(old(out)@, final(out)@),
    decreases *c, 2 * c.args.len() + 3,
{
    let ghost t0 = out@;
    if str_eq(c.name.as_str(), "where") {
        out.append(c.name.as_str());
        out.append("_(");
    } else {
        emit_stripped(out, c.name.as_str());
        out.append("(");
    }
    let rv: usize = match c.f_index {
        Option::Some(fi) => {
            if fi >= m.functions.len() {
                return Err(EmitError::Malformed);
            }
            if matches!(m.functions[fi].ret, Type::Void) {
                0
            } else {
                1
            }
        },
        Option::None => 0,
    };
    assert(rv as nat == return_var(*c, *m));
    let sl2 = sat_add(sl, rv);
    let ghost t1 = out@;
    let n = c.args.len();
    let mut i: usize = 0;
    while i < n
        invariant
            text_extends(old(out)@, out@),
            i <= n,
            n == c.args.len(),
            sl2 as nat == bump(sl as nat, return_var(*c, *m)),
            c.f_index matches Option::Some(fi) ==> fi < m.functions.len(),
            call_args_text(t1, *c, 0, tabs as nat, sl2 as nat, *m) == call_args_text(
                out@,
                *c,
                i as int,
                tabs as nat,
                sl2 as nat,
                *m,
            ),
            call_args_ok(*c, 0, sl2 as nat, *m) == call_args_ok(*c, i as int, sl2 as nat, *m),
        decreases n - i,
    {
        if arg_is_mut(c.name.as_str(), i) {
            out.append("&mut ");
        } else {
            out.append("&");
        }
        emit_expression(out, &c.args[i], tabs, sl2, m)?;
        if i + 1 != n {
            out.append(", ");
        }
        i = i + 1;
    }
    out.append(")");
    Ok(())
}

/// Emits the start of a numeric loop, `0.0` when absent.
fn emit_forn_start(
    out: &mut String,
    o: &Option<Box<Expression>>,
    tabs: usize,
    sl: usize,
    m: &Module,
) -> (r: Result<(), EmitError>)
    ensures
        r is Ok <==> (o matches Option::Some(e) ==> expr_ok(**e, sl as nat, *m)),
        r is Ok ==> final(out)@ == forn_start_text(old(out)@, *o, tabs as nat, sl as nat, *m),
        text_extends(old(out)@, final(out)@),
    decreases *o, 0int,
{
    match o {
        Option::Some(e) => emit_expression(out, e, tabs, sl, m),
        Option::None => {
            out.append("0.0");
            Ok(())
        },
    }
}

/// Emits a loop with init, condition and step.
fn emit_for(out: &mut String, f: &For, tabs: usize, sl: usize, m: &Module) -> (r: Result<
    (),
    EmitError,
>)
    ensures
        r is Ok <==> expr_ok(Expression::For(Box::new(*f)), sl as nat, *m),
        r is Ok ==> final(out)@ == for_text(old(out)@, *f, tabs as nat, sl as nat, *m),
        text_extends(old(out)@, final(out)@),
    decreases *f, 0int,
{
    emit_expression(out, &f.init, tabs, sl, m)?;
    out.append(";\n");
    emit_indent(out, tabs);
    match &f.label {
        Option::Some(l) => {
            out.append("'");
            out.append(l.as_str());
            out.append(": loop {\n");
        },
        Option::None => {
            out.append("loop {\n");
        },
    }
    emit_indent(out, sat_add(tabs, 1));
    out.append("if !cond(&");
    emit_expression(out, &f.cond, sat_add(tabs, 2), sat_add(sl, 1), m)?;
    out.append(") {break};\n");
    emit_indent(out, sat_add(tabs, 1));
    out.append("{\n");
    emit_block(out, &f.block.expressions, sat_add(tabs, 2), sat_add(sl, 1), m)?;
    out.append(";\n");
    emit_indent(out, sat_add(tabs, 1));
    out.append("}\n");
    emit_indent(out, sat_add(tabs, 1));
    emit_expression(out, &f.step, sat_add(tabs, 1), sl, m)?;
    out.append(";\n");
    emit_indent(out, tabs);
    out.append("}");
    Ok(())
}

/// Emits the statement-shaped plain numeric loop.
fn emit_forn(out: &mut String, f: &ForN, tabs: usize, sl: usize, m: &Module) -> (r: Result<
    (),
    EmitError,
>)
    ensures
        r is Ok <==> forn_ok(*f, sl as nat, *m),
        r is Ok ==> final(out)@ == forn_text(old(out)@, *f, tabs as nat, sl as nat, *m),
        text_extends(old(out)@, final(out)@),
    decreases *f, 0int,
{
    out.append("let mut _");
    push_dec(out, sl);
    out.append(": f64 = ");
    emit_forn_start(out, &f.start, tabs, sl, m)?;
    out.append(";\n");
    emit_indent(out, tabs);
    match &f.label {
        Option::Some(l) => {
            out.append("'");
            out.append(l.as_str());
            out.append(": loop {\n");
        },
        Option::None => {
            out.append("loop {\n");
        },
    }
    emit_indent(out, sat_add(tabs, 1));
    out.append("if _");
    push_dec(out, sl);
    out.append(" >= ");
    emit_expression(out, &f.end, tabs, sl, m)?;
    out.append(" {break};\n");
    emit_indent(out, sat_add(tabs, 1));
    out.append("{\n");
    emit_block(out, &f.block.expressions, sat_add(tabs, 2), sat_add(sl, 1), m)?;
    out.append(";\n");
    emit_indent(out, sat_add(tabs, 1));
    out.append("}\n");
    emit_indent(out, sat_add(tabs, 1));
    out.append("_");
    push_dec(out, sl);
    out.append(" += 1.0;\n");
    emit_indent(out, tabs);
    out.append("}");
    Ok(())
}

/// Emits the braced `all`/`any` loops.
fn emit_all_any(
    out: &mut String,
    f: &ForN,
    tabs: usize,
    sl: usize,
    m: &Module,
    is_all: bool,
) -> (r: Result<(), EmitError>)
    ensures
        r is Ok <==> forn_ok(*f, sl as nat, *m),
        r is Ok ==> final(out)@ == all_any_text(
            old(out)@,
            *f,
            tabs as nat,
            sl as nat,
            *m,
            is_all,
        ),
        text_extends(old(out)@, final(out)@),
    decreases *f, 0int,
{
    out.append("{\n");
    emit_indent(out, sat_add(tabs, 1));
    out.append("let mut _");
    push_dec(out, sl);
    out.append(": f64 = ");
    emit_forn_start(out, &f.start, tabs, sl, m)?;
    out.append(";\n");
    emit_indent(out, sat_add(tabs, 1));
    out.append("let mut _");
    push_dec(out, sat_add(sl, 1));
    if is_all {
        out.append(": Secret<bool, f64> = Secret::new_bool(true);\n");
    } else {
        out.append(": Secret<bool, f64> = Secret::new_bool(false);\n");
    }
    emit_indent(out, sat_add(tabs, 1));
    out.append("let _");
    push_dec(out, sat_add(sl, 2));
    out.append(": f64 = ");
    emit_expression(out, &f.end, tabs, sl, m)?;
    out.append(";\n");
    emit_indent(out, sat_add(tabs, 1));
    out.append("loop {\n");
    emit_indent(out, sat_add(tabs, 2));
    out.append("if _");
    push_dec(out, sl);
    out.append(" >= _");
    push_dec(out, sat_add(sl, 2));
    out.append(" {break};\n");
    emit_indent(out, sat_add(tabs, 2));
    out.append("_");
    push_dec(out, sat_add(sl, 1));
    if is_all {
        out.append(" &= {\n");
    } else {
        out.append(" |= {\n");
    }
    emit_block(out, &f.block.expressions, sat_add(tabs, 3), sat_add(sl, 1), m)?;
    out.append("\n");
    emit_indent(out, sat_add(tabs, 2));
    out.append("};\n");
    emit_indent(out, sat_add(tabs, 2));
    if is_all {
        out.append("if !cond(&_");
    } else {
        out.append("if cond(&_");
    }
    push_dec(out, sat_add(sl, 1));
    out.append(") {\n");
    emit_indent(out, sat_add(tabs, 3));
    out.append("_");
    push_dec(out, sat_add(sl, 1));
    out.append(".secret.push(_");
    push_dec(out, sl);
    out.append(");\n");
    emit_indent(out, sat_add(tabs, 3));
    out.append("break;\n");
    emit_indent(out, sat_add(tabs, 2));
    out.append("}\n");
    emit_indent(out, sat_add(tabs, 2));
    out.append("_");
    push_dec(out, sl);
    out.append(" += 1.0;\n");
    emit_indent(out, sat_add(tabs, 1));
    out.append("}\n");
    emit_indent(out, sat_add(tabs, 1));
    out.append("_");
    push_dec(out, sat_add(sl, 1));
    out.append("\n");
    emit_indent(out, tabs);
    out.append("}");
    Ok(())
}

/// Emits the braced `sum`/`prod` loops.
fn emit_sum_prod(
    out: &mut String,
    f: &ForN,
    tabs: usize,
    sl: usize,
    m: &Module,
    is_sum: bool,
) -> (r: Result<(), EmitError>)
    ensures
        r is Ok <==> forn_ok(*f, sl as nat, *m),
        r is Ok ==> final(out)@ == sum_prod_text(
            old(out)@,
            *f,
            tabs as nat,
            sl as nat,
            *m,
            is_sum,
        ),
        text_extends(old(out)@, final(out)@),
    decreases *f, 0int,
{
    out.append("{\n");
    emit_indent(out, sat_add(tabs, 1));
    out.append("let mut _");
    push_dec(out, sl);
    out.append(": f64 = ");
    emit_forn_start(out, &f.start, tabs, sl, m)?;
    out.append(";\n");
    emit_indent(out, sat_add(tabs, 1));
    out.append("let mut _");
    push_dec(out, sat_add(sl, 1));
    if is_sum {
        out.append(": f64 = 0.0;\n");
    } else {
        out.append(": f64 = 1.0;\n");
    }
    emit_indent(out, sat_add(tabs, 1));
    out.append("loop {\n");
    emit_indent(out, sat_add(tabs, 2));
    out.append("if _");
    push_dec(out, sl);
    out.append(" >= ");
    emit_expression(out, &f.end, tabs, sl, m)?;
    out.append(" {break};\n");
    emit_indent(out, sat_add(tabs, 2));
    out.append("_");
    push_dec(out, sat_add(sl, 1));
    if is_sum {
        out.append(" += {\n");
    } else {
        out.append(" *= {\n");
    }
    emit_block(out, &f.block.expressions, sat_add(tabs, 3), sat_add(sl, 1), m)?;
    out.append("\n");
    emit_indent(out, sat_add(tabs, 2));
    out.append("};\n");
    emit_indent(out, sat_add(tabs, 2));
    out.append("_");
    push_dec(out, sl);
    out.append(" += 1.0;\n");
    emit_indent(out, sat_add(tabs, 1));
    out.append("}\n");
    emit_indent(out, sat_add(tabs, 1));
    out.append("_");
    push_dec(out, sat_add(sl, 1));
    out.append("\n");
    emit_indent(out, tabs);
    out.append("}");
    Ok(())
}

/// Emits the braced `max`/`min` loops.
fn emit_max_min(
    out: &mut String,
    f: &ForN,
    tabs: usize,
    sl: usize,
    m: &Module,
    is_max: bool,
) -> (r: Result<(), EmitError>)
    ensures
        r is Ok <==> forn_ok(*f, sl as nat, *m),
        r is Ok ==> final(out)@ == max_min_text(
            old(out)@,
            *f,
            tabs as nat,
            sl as nat,
            *m,
            is_max,
        ),
        text_extends(old(out)@, final(out)@),
    decreases *f, 0int,
{
    out.append("{\n");
    emit_indent(out, sat_add(tabs, 1));
    out.append("let mut _");
    push_dec(out, sl);
    out.append(": f64 = ");
    emit_forn_start(out, &f.start, tabs, sl, m)?;
    out.append(";\n");
    emit_indent(out, sat_add(tabs, 1));
    out.append("let mut _");
    push_dec(out, sat_add(sl, 1));
    out.append(": Secret<f64, f64> = Secret::new_f64(::std::f64::NAN);\n");
    emit_indent(out, sat_add(tabs, 1));
    out.append("let mut _");
    push_dec(out, sat_add(sl, 2));
    out.append(": Option<f64> = None;\n");
    emit_indent(out, sat_add(tabs, 1));
    out.append("let _");
    push_dec(out, sat_add(sl, 3));
    out.append(": f64 = ");
    emit_expression(out, &f.end, tabs, sl, m)?;
    out.append(";\n");
    emit_indent(out, sat_add(tabs, 1));
    out.append("loop {\n");
    emit_indent(out, sat_add(tabs, 2));
    out.append("if _");
    push_dec(out, sl);
    out.append(" >= _");
    push_dec(out, sat_add(sl, 3));
    out.append(" {break};\n");
    emit_indent(out, sat_add(tabs, 2));
    out.append("let _");
    push_dec(out, sat_add(sl, 3));
    out.append(" = {\n");
    emit_block(out, &f.block.expressions, sat_add(tabs, 3), sat_add(sl, 1), m)?;
    if is_max {
        out.append("\n");
    }
    emit_indent(out, sat_add(tabs, 2));
    out.append("};\n");
    emit_indent(out, sat_add(tabs, 2));
    out.append("if _");
    push_dec(out, sat_add(sl, 1));
    out.append(".val.is_nan() || _");
    push_dec(out, sat_add(sl, 3));
    out.append(".value() ");
    if is_max {
        out.append("> _");
    } else {
        out.append("< _");
    }
    push_dec(out, sat_add(sl, 1));
    out.append(".value() {\n");
    emit_indent(out, sat_add(tabs, 3));
    out.append("_");
    push_dec(out, sat_add(sl, 1));
    out.append(" = _");
    push_dec(out, sat_add(sl, 3));
    out.append(".into();\n");
    emit_indent(out, sat_add(tabs, 3));
    out.append("_");
    push_dec(out, sat_add(sl, 2));
    out.append(" = Some(_");
    push_dec(out, sl);
    out.append(");\n");
    emit_indent(out, sat_add(tabs, 2));
    out.append("}\n");
    emit_indent(out, sat_add(tabs, 2));
    out.append("_");
    push_dec(out, sl);
    out.append(" += 1.0;\n");
    emit_indent(out, sat_add(tabs, 1));
    out.append("}\n");
    emit_indent(out, sat_add(tabs, 1));
    out.append("if let Some(_");
    push_dec(out, sl);
    out.append(") = _");
    push_dec(out, sat_add(sl, 2));
    out.append(" {\n");
    emit_indent(out, sat_add(tabs, 2));
    out.append("_");
    push_dec(out, sat_add(sl, 1));
    out.append(".secret.push(_");
    push_dec(out, sl);
    out.append(");\n");
    emit_indent(out, sat_add(tabs, 1));
    out.append("}\n");
    emit_indent(out, sat_add(tabs, 1));
    out.append("_");
    push_dec(out, sat_add(sl, 1));
    out.append("\n");
    emit_indent(out, tabs);
    out.append("}");
    Ok(())
}

/// Emits the braced `sift` loop.
fn emit_sift(out: &mut String, f: &ForN, tabs: usize, sl: usize, m: &Module) -> (r: Result<
    (),
    EmitError,
>)
    ensures
        r is Ok <==> forn_ok(*f, sl as nat, *m),
        r is Ok ==> final(out)@ == sift_text(old(out)@, *f, tabs as nat, sl as nat, *m),
        text_extends(old(out)@, final(out)@),
    decreases *f, 0int,
{
    out.append("{\n");
    emit_indent(out, sat_add(tabs, 1));
    out.append("let mut _");
    push_dec(out, sl);
    out.append(": f64 = ");
    emit_forn_start(out, &f.start, tabs, sl, m)?;
    out.append(";\n");
    emit_indent(out, sat_add(tabs, 1));
    out.append("let mut _");
    push_dec(out, sat_add(sl, 1));
    out.append(" = vec![];\n");
    emit_indent(out, sat_add(tabs, 1));
    out.append("loop {\n");
    emit_indent(out, sat_add(tabs, 2));
    out.append("if _");
    push_dec(out, sl);
    out.append(" >= ");
    emit_expression(out, &f.end, tabs, sl, m)?;
    out.append(" {break};\n");
    emit_indent(out, sat_add(tabs, 2));
    out.append("let _");
    push_dec(out, sat_add(sl, 3));
    out.append(" = {\n");
    emit_block(out, &f.block.expressions, sat_add(tabs, 3), sat_add(sl, 1), m)?;
    out.append("\n");
    emit_indent(out, sat_add(tabs, 2));
    out.append("};\n");
    emit_indent(out, sat_add(tabs, 2));
    out.append("_");
    push_dec(out, sat_add(sl, 1));
    out.append(".push(_");
    push_dec(out, sat_add(sl, 3));
    out.append(");\n");
    emit_indent(out, sat_add(tabs, 2));
    out.append("_");
    push_dec(out, sl);
    out.append(" += 1.0;\n");
    emit_indent(out, sat_add(tabs, 1));
    out.append("}\n");
    emit_indent(out, sat_add(tabs, 1));
    out.append("_");
    push_dec(out, sat_add(sl, 1));
    out.append("\n");
    emit_indent(out, tabs);
    out.append("}");
    Ok(())
}

/// Emits an item: positional name, then id path.
fn emit_item(out: &mut String, it: &Item, tabs: usize, sl: usize, m: &Module) -> (r: Result<
    (),
    EmitError,
>)
    ensures
        r is Ok <==> item_ok(*it, sl as nat, *m),
        r is Ok ==> final(out)@ == item_text(old(out)@, *it, tabs as nat, sl as nat, *m),
        text_extends(old(out)@, final(out)@),
    decreases *it, 2 * it.ids.len() + 3,
{
    match it.static_stack_id {
        Option::Some(s) => {
            if s > sl {
                return Err(EmitError::Malformed);
            }
            out.append("_");
            push_dec(out, sl - s);
        },
        Option::None => {},
    }
    let ghost t1 = out@;
    let n = it.ids.len();
    let mut j: usize = 0;
    while j < n
        invariant
            text_extends(old(out)@, out@),
            j <= n,
            n == it.ids.len(),
            it.static_stack_id matches Option::Some(s) ==> s <= sl,
            item_ids_text(t1, *it, 0, tabs as nat, sl as nat, *m) == item_ids_text(
                out@,
                *it,
                j as int,
                tabs as nat,
                sl as nat,
                *m,
            ),
            item_ids_ok(*it, 0, sl as nat, *m) == item_ids_ok(*it, j as int, sl as nat, *m),
        decreases n - j,
    {
        out.append("[");
        match &it.ids[j] {
            Id::Str(key) => {
                out.append("&Arc::new(");
                let q = debug_quote(key.as_str());
                out.append(q.as_str());
                out.append(".into())");
            },
            Id::Num(v) => {
                push_dec(out, *v);
            },
            Id::Expr(e) => {
                out.append("index::ind(");
                emit_expression(out, e, tabs, sat_add(sl, j), m)?;
                out.append(")");
            },
        }
        out.append("]");
        j = j + 1;
    }
    Ok(())
}

/// Emits a binary operation.
fn emit_binop(
    out: &mut String,
    b: &BinOpExpression,
    tabs: usize,
    sl: usize,
    m: &Module,
) -> (r: Result<(), EmitError>)
    ensures
        r is Ok <==> (expr_ok(*b.left, sl as nat, *m) && expr_ok(*b.right, sl as nat, *m)),
        r is Ok ==> final(out)@ == binop_text(old(out)@, *b, tabs as nat, sl as nat, *m),
        text_extends(old(out)@, final(out)@),
    decreases *b, 0int,
{
    match b.op {
        BinOp::AndAlso | BinOp::OrElse => {
            out.append("(");
            emit_expression(out, &b.left, tabs, sl, m)?;
            if matches!(b.op, BinOp::AndAlso) {
                out.append(" && ");
            } else {
                out.append(" || ");
            }
            emit_expression(out, &b.right, tabs, sl, m)?;
            out.append(")");
            Ok(())
        },
        _ => {
            match b.op {
                BinOp::Add => out.append("binop::add"),
                BinOp::Mul => out.append("binop::mul"),
                BinOp::Div => out.append("binop::div"),
                BinOp::Sub => out.append("binop::sub"),
                BinOp::Rem => out.append("binop::rem"),
                BinOp::Dot => out.append("binop::dot"),
                BinOp::Cross => out.append("binop::cross"),
                _ => out.append("binop::pow"),
            }
            out.append("(&");
            emit_expression(out, &b.left, tabs, sl, m)?;
            out.append(", &");
            emit_expression(out, &b.right, tabs, sl, m)?;
            out.append(")");
            Ok(())
        },
    }
}

/// Emits a comparison.
fn emit_compare(out: &mut String, c: &Compare, tabs: usize, sl: usize, m: &Module) -> (r: Result<
    (),
    EmitError,
>)
    ensures
        r is Ok <==> (expr_ok(*c.left, sl as nat, *m) && expr_ok(*c.right, sl as nat, *m)),
        r is Ok ==> final(out)@ == compare_text(old(out)@, *c, tabs as nat, sl as nat, *m),
        text_extends(old(out)@, final(out)@),
    decreases *c, 0int,
{
    match c.op {
        CompareOp::Less => out.append("compop::less"),
        CompareOp::LessOrEqual => out.append("compop::less_or_equal"),
        CompareOp::Greater => out.append("compop::greater"),
        CompareOp::GreaterOrEqual => out.append("compop::greater_or_equal"),
        CompareOp::Equal => out.append("compop::equal"),
        CompareOp::NotEqual => out.append("compop::not_equal"),
    }
    out.append("(&");
    emit_expression(out, &c.left, tabs, sl, m)?;
    out.append(", &");
    emit_expression(out, &c.right, tabs, sl, m)?;
    out.append(")");
    Ok(())
}

/// Emits a unary operation.
fn emit_unop(
    out: &mut String,
    u: &UnOpExpression,
    tabs: usize,
    sl: usize,
    m: &Module,
) -> (r: Result<(), EmitError>)
    ensures
        r is Ok <==> expr_ok(*u.expr, sl as nat, *m),
        r is Ok ==> final(out)@ == unop_text(old(out)@, *u, tabs as nat, sl as nat, *m),
        text_extends(old(out)@, final(out)@),
    decreases *u, 0int,
{
    match u.op {
        UnOp::Not => out.append("unop::not"),
        UnOp::Neg => out.append("unop::neg"),
    }
    out.append("(&");
    emit_expression(out, &u.expr, tabs, sl, m)?;
    out.append(")");
    Ok(())
}

/// Emits an array literal, boxing every element when the inferred element
/// type widens to `Variable`.
fn emit_array(out: &mut String, a: &Array, tabs: usize, sl: usize, m: &Module) -> (r: Result<
    (),
    EmitError,
>)
    ensures
        r is Ok <==> array_items_ok(*a, 0, sl as nat, *m),
        r is Ok ==> final(out)@ == array_text(old(out)@, *a, tabs as nat, sl as nat, *m),
        text_extends(old(out)@, final(out)@),
    decreases *a, 2 * a.items.len() + 3,
{
    out.append("vec![");
    let ty = infer_items(&a.items);
    let boxed = matches!(ty, Option::Some(ArrayType::Variable));
    assert(boxed == items_boxed(a.items@));
    let ghost t1 = out@;
    let n = a.items.len();
    let mut i: usize = 0;
    while i < n
        invariant
            text_extends(old(out)@, out@),
            i <= n,
            n == a.items.len(),
            boxed == items_boxed(a.items@),
            array_items_text(t1, *a, 0, items_boxed(a.items@), tabs as nat, sl as nat, *m)
                == array_items_text(
                out@,
                *a,
                i as int,
                items_boxed(a.items@),
                tabs as nat,
                sl as nat,
                *m,
            ),
            array_items_ok(*a, 0, sl as nat, *m) == array_items_ok(*a, i as int, sl as nat, *m),
        decreases n - i,
    {
        if boxed {
            out.append("variable(&");
            emit_expression(out, &a.items[i], tabs, sl, m)?;
            out.append(")");
        } else {
            emit_expression(out, &a.items[i], tabs, sl, m)?;
        }
        if i + 1 != n {
            out.append(", ");
        }
        i = i + 1;
    }
    out.append("]");
    Ok(())
}

/// Emits a 4-lane vector literal.
fn emit_vec4(out: &mut String, v: &Vec4, tabs: usize, sl: usize, m: &Module) -> (r: Result<
    (),
    EmitError,
>)
    ensures
        r is Ok <==> (vec4_binders_ok(*v, 0, sl as nat, *m) && vec4_lanes_ok(
            *v,
            0,
            vec4_extra_from(v.args@, 0),
            sl as nat,
            *m,
        )),
        r is Ok ==> final(out)@ == vec4_text(old(out)@, *v, tabs as nat, sl as nat, *m),
        text_extends(old(out)@, final(out)@),
    decreases *v, 2 * v.args.len() + 5,
{
    let n = v.args.len();
    // Count the extra lanes the swizzles contribute.
    let mut extra: usize = 0;
    let mut k: usize = n;
    while k > 0
        invariant
            k <= n,
            n == v.args.len(),
            extra as nat == bump(0, vec4_extra_from(v.args@, k as int)),
        decreases k,
    {
        k = k - 1;
        match &v.args[k] {
            Expression::Swizzle(sw) => {
                let mut lanes: usize = 1;
                if sw.sw2.is_some() {
                    lanes = lanes + 1;
                }
                if sw.sw3.is_some() {
                    lanes = lanes + 1;
                }
                assert(lanes as nat == swizzle_lanes(**sw) - 1);
                extra = sat_add(extra, lanes);
            },
            _ => {},
        }
    }
    let ghost xtr = vec4_extra_from(v.args@, 0);
    if extra > 0 {
        out.append("{\n");
        // The binders, one per swizzle argument.
        let ghost t1 = out@;
        let mut bcount: usize = 0;
        let mut recount: usize = 0;
        let mut j: usize = 0;
        while j < n
            invariant
                text_extends(old(out)@, out@),
                j <= n,
                n == v.args.len(),
                bcount <= j,
                bcount as nat == swizzle_count_upto(v.args@, j as int),
                recount as nat == bump(0, recount_upto(v.args@, j as int)),
                vec4_binders_text(t1, *v, 0, tabs as nat, sl as nat, *m) == vec4_binders_text(
                    out@,
                    *v,
                    j as int,
                    tabs as nat,
                    sl as nat,
                    *m,
                ),
                vec4_binders_ok(*v, 0, sl as nat, *m) == vec4_binders_ok(
                    *v,
                    j as int,
                    sl as nat,
                    *m,
                ),
            decreases n - j,
        {
            match &v.args[j] {
                Expression::Swizzle(sw) => {
                    emit_indent(out, sat_add(tabs, 1));
                    out.append("let ref _");
                    push_dec(out, sat_add(sl, bcount));
                    out.append(" = ");
                    assert(bump(sl as nat, recount as nat) == bump(
                        sl as nat,
                        recount_upto(v.args@, j as int),
                    ));
                    emit_expression(out, &sw.expr, sat_add(tabs, 2), sat_add(sl, recount), m)?;
                    out.append(";\n");
                    bcount = bcount + 1;
                    let mut lanes: usize = 2;
                    if sw.sw2.is_some() {
                        lanes = lanes + 1;
                    }
                    if sw.sw3.is_some() {
                        lanes = lanes + 1;
                    }
                    assert(lanes as nat == swizzle_lanes(**sw));
                    recount = sat_add(recount, lanes);
                },
                _ => {},
            }
            j = j + 1;
        }
        emit_indent(out, sat_add(tabs, 1));
        out.append("[");
        emit_vec4_lanes(out, v, 0, extra, 0, tabs, sl, m)?;
        out.append("]\n");
        emit_indent(out, tabs);
        out.append("}");
        Ok(())
    } else {
        out.append("[");
        let ghost t1 = out@;
        let mut i: usize = 0;
        while i < n
            invariant
                text_extends(old(out)@, out@),
                i <= n,
                n == v.args.len(),
                extra == 0,
                xtr == vec4_extra_from(v.args@, 0),
                bump(0, xtr) == 0,
                vec4_plain_text(t1, *v, 0, tabs as nat, sl as nat, *m) == vec4_plain_text(
                    out@,
                    *v,
                    i as int,
                    tabs as nat,
                    sl as nat,
                    *m,
                ),
                vec4_lanes_ok(*v, 0, xtr, sl as nat, *m) == vec4_lanes_ok(
                    *v,
                    i as int,
                    xtr,
                    sl as nat,
                    *m,
                ),
            decreases n - i,
        {
            match emit_expression(out, &v.args[i], tabs, sl, m) {
                Ok(()) => {},
                Err(e) => {
                    proof {
                        if v.args@[i as int] is Swizzle {
                            lemma_extra_from_swizzle(v.args@, 0, i as int);
                        }
                    }
                    return Err(e);
                },
            }
            if i + 1 != n {
                out.append(", ");
            }
            i = i + 1;
        }
        out.append("]");
        assert(vec4_binders_ok(*v, 0, sl as nat, *m)) by {
            lemma_no_swizzle_binders_ok(*v, 0, sl as nat, *m);
        }
        Ok(())
    }
}

/// With no extra lanes there is no swizzle argument, so the binders are
/// trivially emittable.
proof fn lemma_no_swizzle_binders_ok(v: Vec4, j: int, sl: nat, m: Module)
    requires
        bump(0, vec4_extra_from(v.args@, 0)) == 0,
        j >= 0,
    ensures
        vec4_binders_ok(v, j, sl, m),
    decreases v.args.len() - j,
{
    if 0 <= j < v.args.len() {
        if v.args[j] is Swizzle {
            lemma_extra_from_swizzle(v.args@, 0, j);
        }
        lemma_no_swizzle_binders_ok(v, j + 1, sl, m);
    }
}

/// A swizzle at position `i` contributes at least one extra lane to the
/// count from any earlier position.
proof fn lemma_extra_from_swizzle(args: Seq<Expression>, j: int, i: int)
    requires
        0 <= j <= i < args.len(),
        args[i] is Swizzle,
    ensures
        vec4_extra_from(args, j) >= 1,
    decreases i - j,
{
    if j < i {
        lemma_extra_from_swizzle(args, j + 1, i);
    }
}


/// Emits the lane list of a swizzled vector literal, from position `j` on.
/// `extra` is the saturated count of extra swizzle lanes and `sind` the
/// number of swizzle arguments before `j`.
fn emit_vec4_lanes(
    out: &mut String,
    v: &Vec4,
    j: usize,
    extra: usize,
    sind: usize,
    tabs: usize,
    sl: usize,
    m: &Module,
) -> (r: Result<(), EmitError>)
    requires
        sind <= j,
        sind as nat == swizzle_count_upto(v.args@, j as int),
        extra as nat == bump(0, vec4_extra_from(v.args@, 0)),
    ensures
        r is Ok <==> vec4_lanes_ok(*v, j as int, vec4_extra_from(v.args@, 0), sl as nat, *m),
        r is Ok ==> final(out)@ == vec4_lanes_text(
            old(out)@,
            *v,
            j as int,
            vec4_extra_from(v.args@, 0),
            tabs as nat,
            sl as nat,
            *m,
        ),
        text_extends(old(out)@, final(out)@),
    decreases *v, 2 * (v.args.len() - j) + 2,
{
    let n = v.args.len();
    if j >= n {
        return Ok(());
    }
    match &v.args[j] {
        Expression::Swizzle(sw) => {
            let id = sat_add(sl, sind);
            out.append("index::vec4_look_up(_");
            push_dec(out, id);
            out.append(", ");
            push_dec(out, sw.sw0);
            out.append(")");
            out.append(", ");
            out.append("index::vec4_look_up(_");
            push_dec(out, id);
            out.append(", ");
            push_dec(out, sw.sw1);
            out.append(")");
            match sw.sw2 {
                Option::Some(sw2) => {
                    out.append(", ");
                    out.append("index::vec4_look_up(_");
                    push_dec(out, id);
                    out.append(", ");
                    push_dec(out, sw2);
                    out.append(")");
                    match sw.sw3 {
                        Option::Some(sw3) => {
                            out.append(", ");
                            out.append("index::vec4_look_up(_");
                            push_dec(out, id);
                            out.append(", ");
                            push_dec(out, sw3);
                            out.append(")");
                        },
                        Option::None => {},
                    }
                },
                Option::None => {},
            }
            if sat_add(sat_add(j, 1), extra) >= n {
                return Ok(());
            }
            if j + 1 != n {
                out.append(", ");
            }
            emit_vec4_lanes(out, v, j + 1, extra, sind + 1, tabs, sl, m)
        },
        _ => {
            emit_expression(out, &v.args[j], sat_add(tabs, 2), sl, m)?;
            if sat_add(sat_add(j, 1), extra) >= n {
                return Ok(());
            }
            if j + 1 != n {
                out.append(", ");
            }
            emit_vec4_lanes(out, v, j + 1, extra, sind, tabs, sl, m)
        },
    }
}

/// Emits an assignment.
fn emit_assign(out: &mut String, a: &Assign, tabs: usize, sl: usize, m: &Module) -> (r: Result<
    (),
    EmitError,
>)
    ensures
        r is Ok <==> assign_ok(*a, sl as nat, *m),
        r is Ok ==> final(out)@ == assign_text(old(out)@, *a, tabs as nat, sl as nat, *m),
        text_extends(old(out)@, final(out)@),
    decreases *a, 3int,
{
    match &*a.left {
        Expression::Item(it) => {
            if it.ids.len() == 0 {
                match a.op {
                    AssignOp::Assign => {
                        out.append("let mut _");
                        push_dec(out, sl);
                        out.append(" = ");
                        emit_expression(out, &a.right, tabs, sl, m)
                    },
                    AssignOp::Store => {
                        out.append("assign(&mut ");
                        emit_expression(out, &a.left, tabs, sl, m)?;
                        out.append(", &");
                        emit_expression(out, &a.right, tabs, sl, m)?;
                        out.append(")");
                        Ok(())
                    },
                    AssignOp::Pow => {
                        emit_expression(out, &a.left, tabs, sl, m)?;
                        out.append(" = binop::pow(&");
                        emit_expression(out, &a.left, tabs, sl, m)?;
                        out.append(", &");
                        emit_expression(out, &a.right, tabs, sl, m)?;
                        out.append(")");
                        Ok(())
                    },
                    _ => {
                        emit_expression(out, &a.left, tabs, sl, m)?;
                        match a.op {
                            AssignOp::Add => out.append(" += "),
                            AssignOp::Sub => out.append(" -= "),
                            AssignOp::Mul => out.append(" *= "),
                            AssignOp::Div => out.append(" /= "),
                            _ => out.append(" %= "),
                        }
                        emit_expression(out, &a.right, tabs, sl, m)
                    },
                }
            } else {
                emit_expression(out, &a.left, tabs, sl, m)?;
                out.append(" = ");
                emit_expression(out, &a.right, tabs, sl, m)
            }
        },
        _ => Ok(()),
    }
}

/// Emits an `if` with its arms.
fn emit_if(out: &mut String, i: &If, tabs: usize, sl: usize, m: &Module) -> (r: Result<
    (),
    EmitError,
>)
    ensures
        r is Ok <==> if_ok(*i, sl as nat, *m),
        r is Ok ==> final(out)@ == if_text(old(out)@, *i, tabs as nat, sl as nat, *m),
        text_extends(old(out)@, final(out)@),
    decreases *i, 2 * elif_count(*i) + 3,
{
    out.append("if cond(&");
    emit_expression(out, &i.cond, tabs, sl, m)?;
    out.append(") {\n");
    emit_block(out, &i.true_block.expressions, sat_add(tabs, 1), sl, m)?;
    out.append("\n");
    emit_indent(out, tabs);
    out.append("}");
    let na = i.else_if_conds.len();
    let nb = i.else_if_blocks.len();
    let cnt = if na < nb {
        na
    } else {
        nb
    };
    assert(cnt as int == elif_count(*i));
    let ghost t3 = out@;
    let mut j: usize = 0;
    while j < cnt
        invariant
            text_extends(old(out)@, out@),
            j <= cnt,
            cnt as int == elif_count(*i),
            elifs_text(t3, *i, 0, tabs as nat, sl as nat, *m) == elifs_text(
                out@,
                *i,
                j as int,
                tabs as nat,
                sl as nat,
                *m,
            ),
            elifs_ok(*i, 0, sl as nat, *m) == elifs_ok(*i, j as int, sl as nat, *m),
        decreases cnt - j,
    {
        out.append(" else if cond(&");
        emit_expression(out, &i.else_if_conds[j], sat_add(tabs, 1), sl, m)?;
        out.append(") {\n");
        emit_block(out, &i.else_if_blocks[j].expressions, sat_add(tabs, 1), sl, m)?;
        out.append("\n");
        emit_indent(out, tabs);
        out.append("}");
        j = j + 1;
    }
    match &i.else_block {
        Option::Some(b) => {
            out.append(" else {\n");
            emit_block(out, &b.expressions, sat_add(tabs, 1), sl, m)?;
            out.append("\n");
            emit_indent(out, tabs);
            out.append("}");
        },
        Option::None => {},
    }
    Ok(())
}

/// Emits an object literal.
fn emit_object(out: &mut String, o: &Object, tabs: usize, sl: usize, m: &Module) -> (r: Result<
    (),
    EmitError,
>)
    ensures
        r is Ok <==> object_entries_ok(*o, 0, sl as nat, *m),
        r is Ok ==> final(out)@ == object_text(old(out)@, *o, tabs as nat, sl as nat, *m),
        text_extends(old(out)@, final(out)@),
    decreases *o, 2 * o.key_values.len() + 3,
{
    out.append("{\n");
    emit_indent(out, sat_add(tabs, 1));
    out.append("let mut _");
    push_dec(out, sl);
    out.append(": HashMap<Arc<String>, Variable> = HashMap::new();\n");
    let ghost t2 = out@;
    let n = o.key_values.len();
    let mut j: usize = 0;
    while j < n
        invariant
            text_extends(old(out)@, out@),
            j <= n,
            n == o.key_values.len(),
            object_entries_text(t2, *o, 0, tabs as nat, sl as nat, *m) == object_entries_text(
                out@,
                *o,
                j as int,
                tabs as nat,
                sl as nat,
                *m,
            ),
            object_entries_ok(*o, 0, sl as nat, *m) == object_entries_ok(
                *o,
                j as int,
                sl as nat,
                *m,
            ),
        decreases n - j,
    {
        emit_indent(out, sat_add(tabs, 1));
        out.append("_");
        push_dec(out, sl);
        out.append(".insert(Arc::new(");
        let q = debug_quote(o.key_values[j].key.as_str());
        out.append(q.as_str());
        out.append(".into()), ");
        out.append("variable(&");
        emit_expression(out, &o.key_values[j].value, sat_add(tabs, 1), sl, m)?;
        out.append(")");
        out.append(");\n");
        j = j + 1;
    }
    emit_indent(out, sat_add(tabs, 1));
    out.append("Arc::new(_");
    push_dec(out, sl);
    out.append(")\n");
    emit_indent(out, tabs);
    out.append("}");
    Ok(())
}

/// Emits a closure literal.
fn emit_closure(out: &mut String, cl: &Closure, tabs: usize, sl: usize, m: &Module) -> (r: Result<
    (),
    EmitError,
>)
    ensures
        r is Ok <==> expr_ok(*cl.expr, bump(sl as nat, cl.args.len() as nat), *m),
        r is Ok ==> final(out)@ == closure_text(old(out)@, *cl, tabs as nat, sl as nat, *m),
        text_extends(old(out)@, final(out)@),
    decreases *cl, 2 * cl.args.len() + 3,
{
    out.append("|");
    let ghost t1 = out@;
    let n = cl.args.len();
    let mut j: usize = 0;
    while j < n
        invariant
            text_extends(old(out)@, out@),
            j <= n,
            n == cl.args.len(),
            closure_params_text(t1, *cl, 0, sl as nat) == closure_params_text(
                out@,
                *cl,
                j as int,
                sl as nat,
            ),
        decreases n - j,
    {
        out.append("_");
        push_dec(out, sat_add(sl, j));
        if j + 1 < n {
            out.append(", ");
        }
        j = j + 1;
    }
    out.append("| {\n");
    emit_indent(out, sat_add(tabs, 1));
    emit_expression(out, &cl.expr, sat_add(tabs, 1), sat_add(sl, n), m)?;
    out.append("\n");
    emit_indent(out, tabs);
    out.append("}");
    Ok(())
}

/// Emits a closure call.
fn emit_call_closure(
    out: &mut String,
    cc: &CallClosure,
    tabs: usize,
    sl: usize,
    m: &Module,
) -> (r: Result<(), EmitError>)
    ensures
        r is Ok <==> (item_ok(cc.item, sl as nat, *m) && call_closure_args_ok(
            *cc,
            0,
            sl as nat,
            *m,
        )),
        r is Ok ==> final(out)@ == call_closure_text(old(out)@, *cc, tabs as nat, sl as nat, *m),
        text_extends(old(out)@, final(out)@),
    decreases *cc, 2 * cc.args.len() + 4,
{
    out.append("(");
    emit_item(out, &cc.item, sat_add(tabs, 1), sl, m)?;
    out.append(")(");
    let ghost t1 = out@;
    let n = cc.args.len();
    let mut j: usize = 0;
    while j < n
        invariant
            text_extends(old(out)@, out@),
            j <= n,
            n == cc.args.len(),
            item_ok(cc.item, sl as nat, *m),
            call_closure_args_text(t1, *cc, 0, tabs as nat, sl as nat, *m)
                == call_closure_args_text(out@, *cc, j as int, tabs as nat, sl as nat, *m),
            call_closure_args_ok(*cc, 0, sl as nat, *m) == call_closure_args_ok(
                *cc,
                j as int,
                sl as nat,
                *m,
            ),
        decreases n - j,
    {
        emit_expression(out, &cc.args[j], sat_add(tabs, 1), sl, m)?;
        if j + 1 < n {
            out.append(", ");
        }
        j = j + 1;
    }
    out.append(")");
    Ok(())
}

/// Emits the statements of a block, raising the stack length at each
/// binding introduction.
pub fn emit_block(
    out: &mut String,
    exprs: &Vec<Expression>,
    tabs: usize,
    sl: usize,
    m: &Module,
) -> (r: Result<(), EmitError>)
    ensures
        r is Ok <==> block_ok(exprs@, 0, sl as nat, *m),
        r is Ok ==> final(out)@ == block_text(old(out)@, exprs@, 0, tabs as nat, sl as nat, *m),
        text_extends(old(out)@, final(out)@),
    decreases exprs@, 0int,
{
    let ghost t0 = out@;
    let n = exprs.len();
    let mut offset: usize = 0;
    let mut i: usize = 0;
    while i < n
        invariant
            text_extends(old(out)@, out@),
            i <= n,
            n == exprs@.len(),
            offset <= i,
            offset as nat == offset_upto(exprs@, i as int),
            block_text(t0, exprs@, 0, tabs as nat, sl as nat, *m) == block_text(
                out@,
                exprs@,
                i as int,
                tabs as nat,
                sl as nat,
                *m,
            ),
            block_ok(exprs@, 0, sl as nat, *m) == block_ok(exprs@, i as int, sl as nat, *m),
        decreases n - i,
    {
        emit_indent(out, tabs);
        emit_expression(out, &exprs[i], tabs, sat_add(sl, offset), m)?;
        if i + 1 != n {
            out.append(";\n");
        }
        let intro = match &exprs[i] {
            Expression::Assign(a) => {
                matches!(a.op, AssignOp::Assign) && match &*a.left {
                    Expression::Item(it) => it.ids.len() == 0,
                    _ => false,
                }
            },
            _ => false,
        };
        assert(intro == is_intro(exprs@[i as int]));
        if intro {
            offset = offset + 1;
        }
        i = i + 1;
    }
    Ok(())
}

/// Emits a lowered type.
fn emit_type(out: &mut String, ty: &Type)
    ensures
        final(out)@ == type_text(old(out)@, *ty),
        text_extends(old(out)@, final(out)@),
    decreases *ty, 2int,
{
    match ty {
        Type::F64 => out.append("f64"),
        Type::Bool => out.append("bool"),
        Type::Vec4 => out.append("[f32; 4]"),
        Type::Text => out.append("str"),
        Type::Array(inner) => {
            out.append("Vec<");
            if matches!(**inner, Type::Text) {
                out.append("&");
            }
            emit_type(out, inner);
            out.append(">");
        },
        Type::Secret(inner) => {
            out.append("Secret<");
            emit_type(out, inner);
            out.append(", f64>");
        },
        Type::Closure(ct) => {
            out.append("Fn(");
            emit_closure_tys(out, ct, 0);
            out.append(")");
            if !matches!(ct.ret, Type::Void) {
                out.append(" -> ");
                emit_type(out, &ct.ret);
            }
        },
        Type::Void => {},
        Type::Other => {},
    }
}

/// Emits the argument types of a closure type, from position `j` on.
fn emit_closure_tys(out: &mut String, ct: &ClosureType, j: usize)
    ensures
        final(out)@ == closure_tys_text(old(out)@, *ct, j as int),
        text_extends(old(out)@, final(out)@),
    decreases *ct, 2 * (ct.tys.len() - j) + 2,
{
    let n = ct.tys.len();
    if j >= n {
        return ;
    }
    emit_type(out, &ct.tys[j]);
    if j + 1 < n {
        out.append(", ");
    }
    emit_closure_tys(out, ct, j + 1);
}

/// Emits one function definition.
fn emit_function(out: &mut String, f: &Function, m: &Module) -> (r: Result<(), EmitError>)
    ensures
        r is Ok <==> fn_ok(*f, *m),
        r is Ok ==> final(out)@ == fn_text(old(out)@, *f, *m),
        text_extends(old(out)@, final(out)@),
    decreases *f, 2 * f.args.len() + 3,
{
    out.append("fn ");
    emit_stripped(out, f.name.as_str());
    out.append("(");
    let ghost t1 = out@;
    let n = f.args.len();
    let mut j: usize = 0;
    while j < n
        invariant
            text_extends(old(out)@, out@),
            j <= n,
            n == f.args.len(),
            fn_args_text(t1, *f, 0) == fn_args_text(out@, *f, j as int),
        decreases n - j,
    {
        if f.args[j].mutable {
            out.append("mut _");
            push_dec(out, j);
            out.append(": &mut ");
        } else {
            out.append("_");
            push_dec(out, j);
            out.append(": &");
        }
        emit_type(out, &f.args[j].ty);
        if j + 1 != n {
            out.append(", ");
        }
        j = j + 1;
    }
    let voidret = matches!(f.ret, Type::Void);
    if voidret {
        out.append(") {\n");
    } else {
        out.append(") -> ");
        emit_type(out, &f.ret);
        out.append(" {\n");
    }
    emit_block(out, &f.block.expressions, 1, n, m)?;
    if voidret {
        out.append(";\n");
        out.append("}\n");
    } else {
        out.append("\n");
        out.append("}\n");
    }
    Ok(())
}

/// Generates code for a whole module into the given buffer.  It succeeds
/// exactly on emittable modules (see [`module_ok`]); on an error the old
/// text stays at the front of the buffer, extended by a partial emission.
pub fn generate_code(out: &mut String, m: &Module) -> (r: Result<(), EmitError>)
    ensures
        r is Ok <==> module_ok(*m),
        r is Ok ==> final(out)@ == module_text(old(out)@, *m),
        text_extends(old(out)@, final(out)@),
{
    out.append(
        "#![allow(unused_imports)]\n#![allow(unreachable_code)]\n\nextern crate dyon;\nextern crate dyon_to_rust;\n\nuse std::sync::Arc;\nuse std::collections::HashMap;\n\nuse dyon::{Variable, Object};\nuse dyon_to_rust::intrinsics::*;\nuse dyon_to_rust::*;\n\n",
    );
    let ghost t1 = out@;
    let n = m.functions.len();
    let mut j: usize = 0;
    while j < n
        invariant
            text_extends(old(out)@, out@),
            j <= n,
            n == m.functions.len(),
            fns_text(t1, *m, 0) == fns_text(out@, *m, j as int),
            fns_ok(*m, 0) == fns_ok(*m, j as int),
        decreases n - j,
    {
        emit_function(out, &m.functions[j], m)?;
        j = j + 1;
    }
    Ok(())
}

/// Generates code for a whole module as a string.
pub fn generate_code_string(m: &Module) -> (r: Result<String, EmitError>)
    ensures
        r is Ok <==> module_ok(*m),
        r matches Ok(s) ==> s@ == module_text(Seq::empty(), *m),
{
    let mut out = String::new();
    match generate_code(&mut out, m) {
        Ok(()) => Ok(out),
        Err(e) => Err(e),
    }
}

} // verus!
