use dyon_to_rust::ast::{
    Arg, Array, Assign, AssignOp, BinOp, BinOpExpression, Block, Call, Compare, CompareOp,
    Expression, Function, ForN, Id, If, Item, Module, Number, Object, Entry, Swizzle, Type, UnOp,
    UnOpExpression, Vec4, Closure, CallClosure, For,
};
use dyon_to_rust::emit::{emit_block, emit_expression, generate_code_string, EmitError, UnsupportedNode};

fn num(repr: &str, whole: bool) -> Expression {
    Expression::Number(Number { repr: repr.to_string(), whole })
}

fn item(s: usize) -> Expression {
    Expression::Item(Item { static_stack_id: Some(s), ids: vec![] })
}

fn intro(right: Expression) -> Expression {
    Expression::Assign(Box::new(Assign {
        op: AssignOp::Assign,
        left: Box::new(Expression::Item(Item { static_stack_id: None, ids: vec![] })),
        right: Box::new(right),
    }))
}

fn println_call(arg: Expression) -> Expression {
    Expression::Call(Call { name: "println".to_string(), args: vec![arg], f_index: None })
}

fn empty_module() -> Module {
    Module { functions: vec![] }
}

fn expr_string(e: &Expression, tabs: usize, sl: usize) -> String {
    let m = empty_module();
    let mut s = String::new();
    emit_expression(&mut s, e, tabs, sl, &m).unwrap();
    s
}

fn vec4_zero_padded(mut args: Vec<Expression>) -> Expression {
    while args.len() < 4 {
        args.push(num("0", true));
    }
    Expression::Vec4(Vec4 { args })
}

fn preamble() -> String {
    generate_code_string(&empty_module()).unwrap()
}

#[test]
fn scalar_binop() {
    let e = println_call(Expression::BinOp(Box::new(BinOpExpression {
        op: BinOp::Add,
        left: Box::new(num("0", true)),
        right: Box::new(num("1", true)),
    })));
    assert_eq!(expr_string(&e, 1, 0), "println(&binop::add(&0.0, &1.0))");
}

#[test]
fn vec4_scalar_mul() {
    let v = vec4_zero_padded(vec![num("1", true), num("2", true)]);
    let e = println_call(Expression::BinOp(Box::new(BinOpExpression {
        op: BinOp::Mul,
        left: Box::new(v),
        right: Box::new(num("2", true)),
    })));
    assert_eq!(
        expr_string(&e, 1, 0),
        "println(&binop::mul(&[1.0, 2.0, 0.0, 0.0], &2.0))"
    );
}

#[test]
fn cross_product() {
    let a = vec4_zero_padded(vec![num("1", true), num("2", true)]);
    let b = vec4_zero_padded(vec![num("2", true), num("1", true)]);
    let e = println_call(Expression::BinOp(Box::new(BinOpExpression {
        op: BinOp::Cross,
        left: Box::new(a),
        right: Box::new(b),
    })));
    assert_eq!(
        expr_string(&e, 1, 0),
        "println(&binop::cross(&[1.0, 2.0, 0.0, 0.0], &[2.0, 1.0, 0.0, 0.0]))"
    );
}

#[test]
fn heterogeneous_array_boxed() {
    let e = Expression::Array(Array {
        items: vec![num("1", true), Expression::Text("hi".to_string())],
    });
    assert_eq!(expr_string(&e, 1, 0), "vec![variable(&1.0), variable(&\"hi\")]");
}

#[test]
fn homogeneous_array_plain() {
    let e = Expression::Array(Array { items: vec![num("1", true), num("2", true)] });
    assert_eq!(expr_string(&e, 1, 0), "vec![1.0, 2.0]");
}

#[test]
fn nested_array_inference() {
    let inner1 = Expression::Array(Array { items: vec![num("1", true)] });
    let inner2 = Expression::Array(Array { items: vec![Expression::Bool(true)] });
    let e = Expression::Array(Array { items: vec![inner1, inner2] });
    assert_eq!(
        expr_string(&e, 0, 0),
        "vec![variable(&vec![1.0]), variable(&vec![true])]"
    );
    let inner3 = Expression::Array(Array { items: vec![num("1", true)] });
    let inner4 = Expression::Array(Array { items: vec![num("2", true)] });
    let e2 = Expression::Array(Array { items: vec![inner3, inner4] });
    assert_eq!(expr_string(&e2, 0, 0), "vec![vec![1.0], vec![2.0]]");
}

#[test]
fn swizzle_single_binding() {
    // With `v` bound at `_0`, the literal `[v.yx, 0, 0]` binds the source
    // once and builds the lanes through look-ups.
    let e = vec4_zero_padded(vec![
        Expression::Swizzle(Box::new(Swizzle {
            sw0: 1,
            sw1: 0,
            sw2: None,
            sw3: None,
            expr: Box::new(item(1)),
        })),
        num("0", true),
        num("0", true),
    ]);
    assert_eq!(
        expr_string(&e, 0, 1),
        "{\n    let ref _1 = _0;\n    [index::vec4_look_up(_1, 1), index::vec4_look_up(_1, 0), 0.0, 0.0]\n}"
    );
}

#[test]
fn compare_less() {
    let e = println_call(Expression::Compare(Box::new(Compare {
        op: CompareOp::Less,
        left: Box::new(item(2)),
        right: Box::new(item(1)),
    })));
    assert_eq!(expr_string(&e, 1, 2), "println(&compop::less(&_0, &_1))");
}

#[test]
fn sum_loop_accumulator() {
    // `sum i { i }` with the bound held in `_0`.
    let e = Expression::Sum(Box::new(ForN {
        start: None,
        end: Box::new(item(1)),
        block: Block { expressions: vec![item(1)] },
        label: None,
    }));
    assert_eq!(
        expr_string(&e, 0, 1),
        "{\n    let mut _1: f64 = 0.0;\n    let mut _2: f64 = 0.0;\n    loop {\n        if _1 >= _0 {break};\n        _2 += {\n            _1\n        };\n        _1 += 1.0;\n    }\n    _2\n}"
    );
}

#[test]
fn prod_loop_accumulator() {
    let e = Expression::Prod(Box::new(ForN {
        start: None,
        end: Box::new(num("3", true)),
        block: Block { expressions: vec![item(1)] },
        label: None,
    }));
    assert_eq!(
        expr_string(&e, 0, 0),
        "{\n    let mut _0: f64 = 0.0;\n    let mut _1: f64 = 1.0;\n    loop {\n        if _0 >= 3.0 {break};\n        _1 *= {\n            _0\n        };\n        _0 += 1.0;\n    }\n    _1\n}"
    );
}

#[test]
fn all_loop_accumulator() {
    let e = Expression::All(Box::new(ForN {
        start: None,
        end: Box::new(num("2", true)),
        block: Block { expressions: vec![Expression::Bool(true)] },
        label: None,
    }));
    let s = expr_string(&e, 0, 0);
    assert_eq!(
        s,
        "{\n    let mut _0: f64 = 0.0;\n    let mut _1: Secret<bool, f64> = Secret::new_bool(true);\n    let _2: f64 = 2.0;\n    loop {\n        if _0 >= _2 {break};\n        _1 &= {\n            true\n        };\n        if !cond(&_1) {\n            _1.secret.push(_0);\n            break;\n        }\n        _0 += 1.0;\n    }\n    _1\n}"
    );
}

#[test]
fn any_loop_accumulator() {
    let e = Expression::Any(Box::new(ForN {
        start: None,
        end: Box::new(num("2", true)),
        block: Block { expressions: vec![Expression::Bool(false)] },
        label: None,
    }));
    let s = expr_string(&e, 0, 0);
    assert!(s.contains("Secret::new_bool(false)"));
    assert!(s.contains("_1 |= {"));
    assert!(s.contains("if cond(&_1) {"));
}

#[test]
fn max_loop_accumulator() {
    let e = Expression::Max(Box::new(ForN {
        start: None,
        end: Box::new(num("2", true)),
        block: Block { expressions: vec![item(1)] },
        label: None,
    }));
    let s = expr_string(&e, 0, 0);
    assert_eq!(
        s,
        "{\n    let mut _0: f64 = 0.0;\n    let mut _1: Secret<f64, f64> = Secret::new_f64(::std::f64::NAN);\n    let mut _2: Option<f64> = None;\n    let _3: f64 = 2.0;\n    loop {\n        if _0 >= _3 {break};\n        let _3 = {\n            _0\n        };\n        if _1.val.is_nan() || _3.value() > _1.value() {\n            _1 = _3.into();\n            _2 = Some(_0);\n        }\n        _0 += 1.0;\n    }\n    if let Some(_0) = _2 {\n        _1.secret.push(_0);\n    }\n    _1\n}"
    );
}

#[test]
fn min_loop_accumulator() {
    let e = Expression::Min(Box::new(ForN {
        start: None,
        end: Box::new(num("2", true)),
        block: Block { expressions: vec![item(1)] },
        label: None,
    }));
    let s = expr_string(&e, 0, 0);
    assert!(s.contains("_3.value() < _1.value()"));
    // The body close differs from `max`: no blank line before the brace.
    assert!(s.contains("let _3 = {\n            _0        };\n"));
}

#[test]
fn sift_loop_accumulator() {
    let e = Expression::Sift(Box::new(ForN {
        start: None,
        end: Box::new(num("2", true)),
        block: Block { expressions: vec![item(1)] },
        label: None,
    }));
    let s = expr_string(&e, 0, 0);
    assert_eq!(
        s,
        "{\n    let mut _0: f64 = 0.0;\n    let mut _1 = vec![];\n    loop {\n        if _0 >= 2.0 {break};\n        let _3 = {\n            _0\n        };\n        _1.push(_3);\n        _0 += 1.0;\n    }\n    _1\n}"
    );
}

#[test]
fn forn_statement_shape() {
    let e = Expression::ForN(Box::new(ForN {
        start: None,
        end: Box::new(num("10", true)),
        block: Block { expressions: vec![println_call(item(1))] },
        label: None,
    }));
    assert_eq!(
        expr_string(&e, 1, 0),
        "let mut _0: f64 = 0.0;\n    loop {\n        if _0 >= 10.0 {break};\n        {\n            println(&_0);\n        }\n        _0 += 1.0;\n    }"
    );
}

#[test]
fn call_mutability_tag() {
    let e = Expression::Call(Call {
        name: "foo(mut,_)".to_string(),
        args: vec![item(2), item(1)],
        f_index: None,
    });
    assert_eq!(expr_string(&e, 1, 2), "foo(&mut _0, &_1)");
}

#[test]
fn call_where_rename() {
    let e = Expression::Call(Call {
        name: "where".to_string(),
        args: vec![item(1)],
        f_index: None,
    });
    assert_eq!(expr_string(&e, 1, 1), "where_(&_0)");
}

#[test]
fn item_id_path() {
    let e = Expression::Item(Item {
        static_stack_id: Some(1),
        ids: vec![
            Id::Str("key".to_string()),
            Id::Num(2),
            Id::Expr(Box::new(num("0", true))),
        ],
    });
    assert_eq!(
        expr_string(&e, 0, 1),
        "_0[&Arc::new(\"key\".into())][2][index::ind(0.0)]"
    );
}

#[test]
fn object_literal() {
    let e = Expression::Object(Object {
        key_values: vec![
            Entry { key: "x".to_string(), value: num("1", true) },
            Entry { key: "a b".to_string(), value: Expression::Bool(true) },
        ],
    });
    assert_eq!(
        expr_string(&e, 0, 0),
        "{\n    let mut _0: HashMap<Arc<String>, Variable> = HashMap::new();\n    _0.insert(Arc::new(\"x\".into()), variable(&1.0));\n    _0.insert(Arc::new(\"a b\".into()), variable(&true));\n    Arc::new(_0)\n}"
    );
}

#[test]
fn assign_shapes() {
    let store = Expression::Assign(Box::new(Assign {
        op: AssignOp::Store,
        left: Box::new(item(1)),
        right: Box::new(num("2", true)),
    }));
    assert_eq!(expr_string(&store, 0, 1), "assign(&mut _0, &2.0)");
    let add = Expression::Assign(Box::new(Assign {
        op: AssignOp::Add,
        left: Box::new(item(1)),
        right: Box::new(num("2", true)),
    }));
    assert_eq!(expr_string(&add, 0, 1), "_0 += 2.0");
    let pow = Expression::Assign(Box::new(Assign {
        op: AssignOp::Pow,
        left: Box::new(item(1)),
        right: Box::new(num("2", true)),
    }));
    assert_eq!(expr_string(&pow, 0, 1), "_0 = binop::pow(&_0, &2.0)");
    let path = Expression::Assign(Box::new(Assign {
        op: AssignOp::Store,
        left: Box::new(Expression::Item(Item {
            static_stack_id: Some(1),
            ids: vec![Id::Num(0)],
        })),
        right: Box::new(num("2", true)),
    }));
    assert_eq!(expr_string(&path, 0, 1), "_0[0] = 2.0");
}

#[test]
fn if_else_arms() {
    let e = Expression::If(Box::new(If {
        cond: Box::new(Expression::Bool(true)),
        true_block: Block { expressions: vec![num("1", true)] },
        else_if_conds: vec![Expression::Bool(false)],
        else_if_blocks: vec![Block { expressions: vec![num("2", true)] }],
        else_block: Some(Block { expressions: vec![num("3", true)] }),
    }));
    assert_eq!(
        expr_string(&e, 0, 0),
        "if cond(&true) {\n    1.0\n} else if cond(&false) {\n    2.0\n} else {\n    3.0\n}"
    );
}

#[test]
fn unop_and_short_circuit() {
    let e = Expression::UnOp(Box::new(UnOpExpression {
        op: UnOp::Not,
        expr: Box::new(Expression::Bool(true)),
    }));
    assert_eq!(expr_string(&e, 0, 0), "unop::not(&true)");
    let sc = Expression::BinOp(Box::new(BinOpExpression {
        op: BinOp::OrElse,
        left: Box::new(Expression::Bool(false)),
        right: Box::new(Expression::Bool(true)),
    }));
    assert_eq!(expr_string(&sc, 0, 0), "(false || true)");
}

#[test]
fn break_continue_labels() {
    assert_eq!(expr_string(&Expression::Break(None), 0, 0), "break");
    assert_eq!(
        expr_string(&Expression::Break(Some("outer".to_string())), 0, 0),
        "break 'outer"
    );
    assert_eq!(
        expr_string(&Expression::Continue(Some("outer".to_string())), 0, 0),
        "continue 'outer"
    );
}

#[test]
fn block_offset_naming() {
    // The statement after a binding introduction sees the raised stack
    // length, so the introduced binding resolves to `_0`.
    let m = empty_module();
    let exprs = vec![intro(num("1", true)), println_call(item(1))];
    let mut s = String::new();
    emit_block(&mut s, &exprs, 0, 0, &m).unwrap();
    assert_eq!(s, "let mut _0 = 1.0;\nprintln(&_0)");
}

#[test]
fn unsupported_variants() {
    let m = empty_module();
    let mut s = String::new();
    assert_eq!(
        emit_expression(&mut s, &Expression::Link, 0, 0, &m),
        Err(EmitError::Unsupported(UnsupportedNode::Link))
    );
    let sw = Expression::Swizzle(Box::new(Swizzle {
        sw0: 0,
        sw1: 1,
        sw2: None,
        sw3: None,
        expr: Box::new(item(1)),
    }));
    let mut s2 = String::new();
    assert_eq!(
        emit_expression(&mut s2, &sw, 0, 1, &m),
        Err(EmitError::Unsupported(UnsupportedNode::Swizzle))
    );
}

#[test]
fn structural_errors() {
    let m = empty_module();
    let mut s = String::new();
    // A stack id above the stack length.
    assert_eq!(emit_expression(&mut s, &item(5), 0, 1, &m), Err(EmitError::Malformed));
    // A loaded call index outside the module.
    let call = Expression::Call(Call {
        name: "foo".to_string(),
        args: vec![],
        f_index: Some(0),
    });
    let mut s2 = String::new();
    assert_eq!(emit_expression(&mut s2, &call, 0, 0, &m), Err(EmitError::Malformed));
}

#[test]
fn loaded_call_return_slot() {
    // A call to a loaded function that returns a value raises the stack
    // length of its arguments by one.
    let ret_fn = Function {
        name: "g".to_string(),
        args: vec![],
        ret: Type::F64,
        block: Block { expressions: vec![num("1", true)] },
    };
    let m = Module { functions: vec![ret_fn] };
    let call = Expression::Call(Call {
        name: "g".to_string(),
        args: vec![item(1)],
        f_index: Some(0),
    });
    let mut s = String::new();
    emit_expression(&mut s, &call, 0, 1, &m).unwrap();
    // Argument emitted at stack length 2: `_0` bound at id 1 becomes `_1`.
    assert_eq!(s, "g(&_1)");
}

#[test]
fn compare_module_output() {
    // The full output for a program comparing two bindings in all six ways.
    let mk = |op: CompareOp| {
        println_call(Expression::Compare(Box::new(Compare {
            op,
            left: Box::new(item(2)),
            right: Box::new(item(1)),
        })))
    };
    let main_fn = Function {
        name: "main".to_string(),
        args: vec![],
        ret: Type::Void,
        block: Block {
            expressions: vec![
                intro(num("0", true)),
                intro(num("1", true)),
                mk(CompareOp::Less),
                mk(CompareOp::LessOrEqual),
                mk(CompareOp::Greater),
                mk(CompareOp::GreaterOrEqual),
                mk(CompareOp::Equal),
                mk(CompareOp::NotEqual),
            ],
        },
    };
    let m = Module { functions: vec![main_fn] };
    let code = generate_code_string(&m).unwrap();
    let expected = preamble()
        + "fn main() {\n    let mut _0 = 0.0;\n    let mut _1 = 1.0;\n    println(&compop::less(&_0, &_1));\n    println(&compop::less_or_equal(&_0, &_1));\n    println(&compop::greater(&_0, &_1));\n    println(&compop::greater_or_equal(&_0, &_1));\n    println(&compop::equal(&_0, &_1));\n    println(&compop::not_equal(&_0, &_1));\n}\n";
    assert_eq!(code, expected);
}

#[test]
fn swizzle_module_output() {
    // A program binding a vector and printing seven swizzled forms.
    let sw = |sw0: usize, sw1: usize, sw2: Option<usize>, sw3: Option<usize>, sid: usize| {
        Expression::Swizzle(Box::new(Swizzle {
            sw0,
            sw1,
            sw2,
            sw3,
            expr: Box::new(item(sid)),
        }))
    };
    let pv = |args: Vec<Expression>| println_call(vec4_zero_padded(args));
    let main_fn = Function {
        name: "main".to_string(),
        args: vec![],
        ret: Type::Void,
        block: Block {
            expressions: vec![
                intro(vec4_zero_padded(vec![num("1", true), num("2", true)])),
                pv(vec![sw(1, 0, None, None, 1), num("0", true), num("0", true)]),
                pv(vec![sw(0, 0, None, None, 1), num("0", true), num("0", true)]),
                pv(vec![sw(0, 2, None, None, 1), num("0", true), num("0", true)]),
                pv(vec![sw(0, 2, None, None, 1), num("0", true), num("0", true)]),
                pv(vec![sw(2, 1, None, None, 1), num("0", true), num("0", true)]),
                pv(vec![sw(0, 1, None, None, 1), sw(1, 0, None, None, 3)]),
                pv(vec![sw(2, 0, Some(1), None, 1), num("0", true)]),
            ],
        },
    };
    let m = Module { functions: vec![main_fn] };
    let code = generate_code_string(&m).unwrap();
    let expected = preamble()
        + "fn main() {\n    let mut _0 = [1.0, 2.0, 0.0, 0.0];\n    println(&{\n        let ref _1 = _0;\n        [index::vec4_look_up(_1, 1), index::vec4_look_up(_1, 0), 0.0, 0.0]\n    });\n    println(&{\n        let ref _1 = _0;\n        [index::vec4_look_up(_1, 0), index::vec4_look_up(_1, 0), 0.0, 0.0]\n    });\n    println(&{\n        let ref _1 = _0;\n        [index::vec4_look_up(_1, 0), index::vec4_look_up(_1, 2), 0.0, 0.0]\n    });\n    println(&{\n        let ref _1 = _0;\n        [index::vec4_look_up(_1, 0), index::vec4_look_up(_1, 2), 0.0, 0.0]\n    });\n    println(&{\n        let ref _1 = _0;\n        [index::vec4_look_up(_1, 2), index::vec4_look_up(_1, 1), 0.0, 0.0]\n    });\n    println(&{\n        let ref _1 = _0;\n        let ref _2 = _0;\n        [index::vec4_look_up(_1, 0), index::vec4_look_up(_1, 1), index::vec4_look_up(_2, 1), index::vec4_look_up(_2, 0)]\n    });\n    println(&{\n        let ref _1 = _0;\n        [index::vec4_look_up(_1, 2), index::vec4_look_up(_1, 0), index::vec4_look_up(_1, 1), 0.0]\n    });\n}\n";
    assert_eq!(code, expected);
}

#[test]
fn signature_lowering() {
    let f = Function {
        name: "update(mut,_)".to_string(),
        args: vec![
            Arg { mutable: true, ty: Type::F64 },
            Arg { mutable: false, ty: Type::Array(Box::new(Type::Text)) },
        ],
        ret: Type::Secret(Box::new(Type::Bool)),
        block: Block {
            expressions: vec![Expression::Call(Call {
                name: "foo(mut,_)".to_string(),
                args: vec![item(2), item(1)],
                f_index: None,
            })],
        },
    };
    let m = Module { functions: vec![f] };
    let code = generate_code_string(&m).unwrap();
    let expected = preamble()
        + "fn update(mut _0: &mut f64, _1: &Vec<&str>) -> Secret<bool, f64> {\n    foo(&mut _0, &_1)\n}\n";
    assert_eq!(code, expected);
}

#[test]
fn emission_determinism() {
    let main_fn = Function {
        name: "main".to_string(),
        args: vec![],
        ret: Type::Void,
        block: Block { expressions: vec![println_call(Expression::Text("hi".to_string()))] },
    };
    let m = Module { functions: vec![main_fn] };
    let once = generate_code_string(&m).unwrap();
    let twice = generate_code_string(&m).unwrap();
    assert_eq!(once, twice);
    assert_eq!(once, preamble() + "fn main() {\n    println(&\"hi\");\n}\n");
}

#[test]
fn number_formats() {
    assert_eq!(expr_string(&num("1.5", false), 0, 0), "1.5");
    assert_eq!(expr_string(&num("2", true), 0, 0), "2.0");
    assert_eq!(expr_string(&num("0", true), 0, 0), "0.0");
}

#[test]
fn text_json_escaping() {
    let e = Expression::Text("a\"b\\c\nd".to_string());
    assert_eq!(expr_string(&e, 0, 0), "\"a\\\"b\\\\c\\nd\"");
    let e2 = Expression::Text("x\r\ty".to_string());
    assert_eq!(expr_string(&e2, 0, 0), "\"x\\r\\ty\"");
    let empty = Expression::Text(String::new());
    assert_eq!(expr_string(&empty, 0, 0), "\"\"");
}

#[test]
fn partial_emission_keeps_buffer() {
    // A failing emission reports the offending variant and leaves what was
    // already written in place.
    let m = Module {
        functions: vec![Function {
            name: "main".to_string(),
            args: vec![],
            ret: Type::Void,
            block: Block { expressions: vec![Expression::Link] },
        }],
    };
    let mut buf = String::from("// lead-in\n");
    assert_eq!(
        dyon_to_rust::generate_code(&mut buf, &m),
        Err(EmitError::Unsupported(UnsupportedNode::Link))
    );
    assert!(buf.starts_with("// lead-in\n"));
}

#[test]
fn closure_literal() {
    let e = Expression::Closure(Box::new(Closure {
        args: vec![
            Arg { mutable: false, ty: Type::F64 },
            Arg { mutable: false, ty: Type::F64 },
        ],
        expr: Box::new(item(1)),
    }));
    assert_eq!(expr_string(&e, 0, 0), "|_0, _1| {\n        _1\n    }");
}

#[test]
fn call_closure_form() {
    let e = Expression::CallClosure(Box::new(CallClosure {
        item: Item { static_stack_id: Some(1), ids: vec![] },
        args: vec![num("1", true)],
    }));
    assert_eq!(expr_string(&e, 0, 1), "(_0)(1.0)");
}

#[test]
fn return_expression() {
    let e = Expression::Return(Box::new(num("1", true)));
    assert_eq!(expr_string(&e, 0, 0), "return 1.0");
}

#[test]
fn block_expression() {
    let e = Expression::Block(Block { expressions: vec![num("1", true)] });
    assert_eq!(expr_string(&e, 0, 0), "{\n    1.0}");
}

#[test]
fn labelled_for_loop() {
    let e = Expression::For(Box::new(For {
        init: Box::new(intro(num("0", true))),
        cond: Box::new(Expression::Compare(Box::new(Compare {
            op: CompareOp::Less,
            left: Box::new(item(1)),
            right: Box::new(num("10", true)),
        }))),
        step: Box::new(Expression::Assign(Box::new(Assign {
            op: AssignOp::Add,
            left: Box::new(item(0)),
            right: Box::new(num("1", true)),
        }))),
        block: Block { expressions: vec![println_call(item(1))] },
        label: Some("top".to_string()),
    }));
    assert_eq!(
        expr_string(&e, 1, 0),
        "let mut _0 = 0.0;\n    'top: loop {\n        if !cond(&compop::less(&_0, &10.0)) {break};\n        {\n            println(&_0);\n        }\n        _0 += 1.0;\n    }"
    );
}

#[test]
fn not_operator() {
    assert!(!dyon_to_rust::not(&true));
    let s: dyon_to_rust::Secret<bool, f64> =
        dyon_to_rust::Secret { val: false, secret: vec![4.0] };
    let n = dyon_to_rust::not(&s);
    assert!(n.val);
    assert_eq!(n.secret, vec![4.0]);
}

#[test]
fn call_module_output() {
    // A program whose entry calls one printer per value domain.
    let void_fn = |name: &str, ty: Type, arg: Expression| {
        (
            Function {
                name: name.to_string(),
                args: vec![Arg { mutable: false, ty }],
                ret: Type::Void,
                block: Block { expressions: vec![println_call(item(1))] },
            },
            arg,
        )
    };
    let parts = vec![
        void_fn("foo_str", Type::Text, Expression::Text("hi".to_string())),
        void_fn("foo_f64", Type::F64, num("4", true)),
        void_fn("foo_bool", Type::Bool, Expression::Bool(true)),
        void_fn(
            "foo_arr_f64",
            Type::Array(Box::new(Type::F64)),
            Expression::Array(Array {
                items: vec![num("1", true), num("2", true), num("3", true)],
            }),
        ),
        void_fn(
            "foo_arr_bool",
            Type::Array(Box::new(Type::Bool)),
            Expression::Array(Array {
                items: vec![
                    Expression::Bool(true),
                    Expression::Bool(true),
                    Expression::Bool(false),
                ],
            }),
        ),
        void_fn(
            "foo_arr_str",
            Type::Array(Box::new(Type::Text)),
            Expression::Array(Array { items: vec![Expression::Text("hi".to_string())] }),
        ),
        void_fn(
            "foo_vec4",
            Type::Vec4,
            vec4_zero_padded(vec![num("1", true), num("2", true)]),
        ),
        void_fn(
            "foo_arr_vec4",
            Type::Array(Box::new(Type::Vec4)),
            Expression::Array(Array {
                items: vec![vec4_zero_padded(vec![num("1", true), num("2", true)])],
            }),
        ),
    ];
    let mut functions = vec![];
    let mut calls = vec![];
    for (i, (f, arg)) in parts.into_iter().enumerate() {
        calls.push(Expression::Call(Call {
            name: f.name.clone(),
            args: vec![arg],
            f_index: Some(i + 1),
        }));
        functions.push(f);
    }
    let main_fn = Function {
        name: "main".to_string(),
        args: vec![],
        ret: Type::Void,
        block: Block { expressions: calls },
    };
    let mut all = vec![main_fn];
    all.extend(functions);
    let m = Module { functions: all };
    let code = generate_code_string(&m).unwrap();
    let expected = preamble()
        + "fn main() {\n    foo_str(&\"hi\");\n    foo_f64(&4.0);\n    foo_bool(&true);\n    foo_arr_f64(&vec![1.0, 2.0, 3.0]);\n    foo_arr_bool(&vec![true, true, false]);\n    foo_arr_str(&vec![\"hi\"]);\n    foo_vec4(&[1.0, 2.0, 0.0, 0.0]);\n    foo_arr_vec4(&vec![[1.0, 2.0, 0.0, 0.0]]);\n}\nfn foo_str(_0: &str) {\n    println(&_0);\n}\nfn foo_f64(_0: &f64) {\n    println(&_0);\n}\nfn foo_bool(_0: &bool) {\n    println(&_0);\n}\nfn foo_arr_f64(_0: &Vec<f64>) {\n    println(&_0);\n}\nfn foo_arr_bool(_0: &Vec<bool>) {\n    println(&_0);\n}\nfn foo_arr_str(_0: &Vec<&str>) {\n    println(&_0);\n}\nfn foo_vec4(_0: &[f32; 4]) {\n    println(&_0);\n}\nfn foo_arr_vec4(_0: &Vec<[f32; 4]>) {\n    println(&_0);\n}\n";
    assert_eq!(code, expected);
}

#[test]
fn sum_with_explicit_start() {
    let e = Expression::Sum(Box::new(ForN {
        start: Some(Box::new(num("2", true))),
        end: Box::new(num("5", true)),
        block: Block { expressions: vec![item(1)] },
        label: None,
    }));
    let s = expr_string(&e, 0, 0);
    assert!(s.starts_with("{\n    let mut _0: f64 = 2.0;\n"));
}

#[test]
fn labelled_forn_loop() {
    let e = Expression::ForN(Box::new(ForN {
        start: None,
        end: Box::new(num("3", true)),
        block: Block { expressions: vec![Expression::Break(Some("outer".to_string()))] },
        label: Some("outer".to_string()),
    }));
    assert_eq!(
        expr_string(&e, 0, 0),
        "let mut _0: f64 = 0.0;\n'outer: loop {\n    if _0 >= 3.0 {break};\n    {\n        break 'outer;\n    }\n    _0 += 1.0;\n}"
    );
}

#[test]
fn if_without_else() {
    let e = Expression::If(Box::new(If {
        cond: Box::new(Expression::Bool(true)),
        true_block: Block { expressions: vec![num("1", true)] },
        else_if_conds: vec![],
        else_if_blocks: vec![],
        else_block: None,
    }));
    assert_eq!(expr_string(&e, 0, 0), "if cond(&true) {\n    1.0\n}");
}

#[test]
fn generate_into_existing_buffer() {
    let m = Module {
        functions: vec![Function {
            name: "main".to_string(),
            args: vec![],
            ret: Type::Void,
            block: Block { expressions: vec![println_call(num("1", true))] },
        }],
    };
    let mut buf = String::from("// lead-in\n");
    dyon_to_rust::generate_code(&mut buf, &m).unwrap();
    let expected =
        "// lead-in\n".to_string() + &preamble() + "fn main() {\n    println(&1.0);\n}\n";
    assert_eq!(buf, expected);
}
