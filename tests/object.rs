use vrl_core::env::ExternalEnv;
use vrl_core::error::{call_error_message, RuntimeError, Span};
use vrl_core::expression::{CallBody, Context, Expr, FunctionCall, Resolved};
use vrl_core::function::{compile_call, Argument, ArgumentList, Builtin, CompileError, NativeEntry, Parameter};
use vrl_core::kind::{Kind, TypeDef};
use vrl_core::object::{object, vrl_fn_object, Object, ObjectFn};
use vrl_core::value::{Tag, Value};

fn text(s: &str) -> Value {
    Value::Bytes(s.as_bytes().to_vec())
}

fn foo_bar() -> Value {
    Value::Object(vec![("foo".to_string(), text("bar"))])
}

fn positional(value: Expr) -> Argument {
    Argument { keyword: None, value }
}

fn empty_context() -> Context {
    Context { record: Value::Object(Vec::new()) }
}

fn call_object(span: Span, handled: bool, value: Expr) -> Expr {
    compile_call(&ExternalEnv::new(), "object", span, handled, vec![positional(value)]).expect("compiles")
}

fn error_text(r: &Resolved) -> String {
    match r {
        Err(e) => e.message(),
        Ok(v) => panic!("expected an error, got {:?}", v),
    }
}

#[test]
fn example_valid_interpreted() {
    let e = call_object(Span { start: 0, end: 22 }, false, Expr::Literal(foo_bar()));
    let mut ctx = empty_context();
    assert_eq!(e.resolve(&mut ctx), Ok(foo_bar()));
    assert!(!e.type_def(&ExternalEnv::new()).fallible);
}

#[test]
fn example_valid_native() {
    let mut slot = foo_bar();
    let mut result: Resolved = Ok(Value::Null);
    vrl_fn_object(&mut slot, &mut result);
    assert_eq!(result, Ok(foo_bar()));
    assert_eq!(slot, Value::Null);
}

#[test]
fn example_invalid_interpreted() {
    let e = call_object(Span { start: 0, end: 13 }, true, Expr::Literal(Value::Boolean(true)));
    assert!(e.type_def(&ExternalEnv::new()).fallible);
    let mut ctx = empty_context();
    let r = e.resolve(&mut ctx);
    assert_eq!(
        error_text(&r),
        r#"function call error for "object" at (0:13): expected object, got boolean"#
    );
}

#[test]
fn example_invalid_native() {
    let mut slot = Value::Boolean(true);
    let mut result: Resolved = Ok(Value::Null);
    vrl_fn_object(&mut slot, &mut result);
    assert_eq!(slot, Value::Null);
    let message = error_text(&result);
    assert_eq!(message, "expected object, got boolean");
    assert_eq!(
        call_error_message("object", Span { start: 0, end: 13 }, &message),
        r#"function call error for "object" at (0:13): expected object, got boolean"#
    );
}

#[test]
fn declared_examples_hold() {
    let examples = Object.examples();
    assert_eq!(examples.len(), 2);
    assert_eq!(examples[0].title, "valid");
    assert_eq!(examples[0].source, r#"object({"foo": "bar"})"#);
    assert_eq!(examples[0].result, Ok(r#"{"foo": "bar"}"#));
    assert_eq!(examples[1].title, "invalid");
    assert_eq!(examples[1].source, "object!(true)");
    assert_eq!(
        examples[1].result,
        Err(r#"function call error for "object" at (0:13): expected object, got boolean"#)
    );
}

#[test]
fn nested_object_call_is_infallible() {
    let a_one = Value::Object(vec![("a".to_string(), Value::Integer(1))]);
    let inner = call_object(Span { start: 7, end: 22 }, false, Expr::Literal(a_one));
    let outer = call_object(Span { start: 0, end: 23 }, false, inner);
    let td = outer.type_def(&ExternalEnv::new());
    assert!(!td.fallible);
    assert_eq!(td.kind, Kind::object());
    let mut ctx = empty_context();
    assert_eq!(
        outer.resolve(&mut ctx),
        Ok(Value::Object(vec![("a".to_string(), Value::Integer(1))]))
    );
}

#[test]
fn array_argument_is_a_compile_error() {
    let arr = Expr::Literal(Value::Array(vec![Value::Integer(1)]));
    let r = compile_call(&ExternalEnv::new(), "object", Span { start: 0, end: 10 }, false, vec![positional(arr)]);
    assert!(matches!(
        r,
        Err(CompileError::UnhandledFallible { span: Span { start: 0, end: 10 } })
    ));
}

#[test]
fn handled_array_argument_fails_at_run_time() {
    let arr = Expr::Literal(Value::Array(vec![Value::Integer(1)]));
    let e = call_object(Span { start: 0, end: 11 }, true, arr);
    assert!(e.type_def(&ExternalEnv::new()).fallible);
    let mut ctx = empty_context();
    assert_eq!(
        error_text(&e.resolve(&mut ctx)),
        r#"function call error for "object" at (0:11): expected object, got array"#
    );
}

#[test]
fn unhandled_fallible_call_is_a_compile_error() {
    let r = compile_call(&ExternalEnv::new(), "object", Span { start: 0, end: 12 }, false, vec![positional(Expr::Literal(Value::Boolean(true)))]);
    assert!(matches!(r, Err(CompileError::UnhandledFallible { .. })));
    let r = compile_call(&ExternalEnv::new(), "object", Span { start: 0, end: 12 }, false, vec![positional(Expr::Query("x".to_string()))]);
    assert!(matches!(r, Err(CompileError::UnhandledFallible { .. })));
}

#[test]
fn disjoint_parameter_kind_is_a_compile_error() {
    let params = vec![Parameter { keyword: "value", kind: Kind::object(), required: true }];
    let arr = Expr::Literal(Value::Array(Vec::new()));
    match ArgumentList::bind(&params, vec![positional(arr)], &ExternalEnv::new(), Span { start: 2, end: 9 }) {
        Err(CompileError::KindMismatch { index, expected, found, span }) => {
            assert_eq!(index, 0);
            assert_eq!(expected, Kind::object());
            assert_eq!(found, Kind::array());
            assert_eq!(span, Span { start: 2, end: 9 });
        }
        _ => panic!("expected a kind mismatch"),
    }
    let q = Expr::Query("x".to_string());
    assert!(ArgumentList::bind(&params, vec![positional(q)], &ExternalEnv::new(), Span { start: 2, end: 9 }).is_ok());
}

#[test]
fn unknown_function_is_a_compile_error() {
    let r = compile_call(&ExternalEnv::new(), "objekt", Span { start: 1, end: 2 }, false, vec![positional(Expr::Literal(foo_bar()))]);
    assert!(matches!(r, Err(CompileError::UnknownFunction { span: Span { start: 1, end: 2 } })));
    assert!(Builtin::lookup("object").is_some());
    assert!(Builtin::lookup("").is_none());
}

#[test]
fn missing_argument_is_a_compile_error() {
    let r = compile_call(&ExternalEnv::new(), "object", Span { start: 0, end: 8 }, false, Vec::new());
    assert!(matches!(r, Err(CompileError::MissingArgument { index: 0, .. })));
}

#[test]
fn too_many_arguments_is_a_compile_error() {
    let args = vec![positional(Expr::Literal(Value::Null)), positional(Expr::Literal(Value::Null))];
    let r = compile_call(&ExternalEnv::new(), "object", Span { start: 0, end: 4 }, true, args);
    assert!(matches!(r, Err(CompileError::TooManyArguments { .. })));
}

#[test]
fn keyword_arguments_bind_by_name() {
    let good = Argument { keyword: Some("value".to_string()), value: Expr::Literal(foo_bar()) };
    assert!(compile_call(&ExternalEnv::new(), "object", Span { start: 0, end: 5 }, false, vec![good]).is_ok());
    let bad = Argument { keyword: Some("values".to_string()), value: Expr::Literal(foo_bar()) };
    let r = compile_call(&ExternalEnv::new(), "object", Span { start: 0, end: 5 }, false, vec![bad]);
    assert!(matches!(r, Err(CompileError::UnexpectedKeyword { index: 0, .. })));
}

#[test]
fn bind_fills_optional_slots() {
    let params = vec![
        Parameter { keyword: "a", kind: Kind::any(), required: true },
        Parameter { keyword: "b", kind: Kind::any(), required: false },
    ];
    let list = ArgumentList::bind(&params, vec![positional(Expr::Literal(Value::Null))], &ExternalEnv::new(), Span { start: 0, end: 1 })
        .expect("binds");
    assert_eq!(list.values.len(), 2);
    assert!(list.values[0].is_some());
    assert!(list.values[1].is_none());
}

fn one_of_each_tag() -> Vec<Value> {
    vec![
        Value::Null,
        Value::Boolean(false),
        Value::Integer(-7),
        Value::Float(1.5f64.to_bits()),
        text("x"),
        Value::Timestamp(1_600_000_000_000_000_000),
        Value::Regex("^a+$".to_string()),
        Value::Array(vec![Value::Null]),
        Value::Object(vec![("k".to_string(), Value::Boolean(true))]),
    ]
}

#[test]
fn native_matches_interpreted_for_every_tag() {
    let names = ["null", "boolean", "integer", "float", "string", "timestamp", "regex", "array"];
    for (i, v) in one_of_each_tag().into_iter().enumerate() {
        let node = ObjectFn { value: Expr::Literal(v.duplicate()) };
        let mut ctx = empty_context();
        let interpreted = node.resolve(&mut ctx);
        let mut slot = v.duplicate();
        let mut native: Resolved = Ok(Value::Null);
        NativeEntry::Object.call(&mut slot, &mut native);
        assert_eq!(interpreted, native);
        assert_eq!(slot, Value::Null);
        if i < names.len() {
            assert_eq!(error_text(&native), format!("expected object, got {}", names[i]));
        } else {
            assert_eq!(native, Ok(v));
        }
    }
}

#[test]
fn native_slot_is_null_after_failure() {
    let mut slot = Value::Array(vec![text("big"), Value::Integer(3)]);
    let mut result: Resolved = Ok(Value::Null);
    vrl_fn_object(&mut slot, &mut result);
    assert_eq!(slot, Value::Null);
    assert_eq!(error_text(&result), "expected object, got array");
}

#[test]
fn object_hands_back_its_input() {
    assert_eq!(object(foo_bar()), Ok(foo_bar()));
    assert_eq!(
        object(Value::Integer(3)),
        Err(RuntimeError { message: "expected object, got integer".to_string() })
    );
}

#[test]
fn symbol_is_named_after_the_identifier() {
    let sym = Object.symbol().expect("has a symbol");
    assert_eq!(sym.name, "vrl_fn_object");
    assert_eq!(sym.entry, NativeEntry::Object);
    assert_eq!(Object.identifier(), "object");
    let params = Object.parameters();
    assert_eq!(params.len(), 1);
    assert_eq!(params[0].keyword, "value");
    assert_eq!(params[0].kind, Kind::any());
    assert!(params[0].required);
}

#[test]
fn query_argument_is_fallible_and_checked_at_run_time() {
    let e = call_object(Span { start: 0, end: 13 }, true, Expr::Query("payload".to_string()));
    assert!(e.type_def(&ExternalEnv::new()).fallible);
    let mut ctx = Context {
        record: Value::Object(vec![
            ("payload".to_string(), foo_bar()),
            ("n".to_string(), Value::Integer(2)),
        ]),
    };
    assert_eq!(e.resolve(&mut ctx), Ok(foo_bar()));
    let e = call_object(Span { start: 3, end: 140 }, true, Expr::Query("n".to_string()));
    assert_eq!(
        error_text(&e.resolve(&mut ctx)),
        r#"function call error for "object" at (3:140): expected object, got integer"#
    );
    let e = call_object(Span { start: 0, end: 9 }, true, Expr::Query("absent".to_string()));
    assert_eq!(
        error_text(&e.resolve(&mut ctx)),
        r#"function call error for "object" at (0:9): expected object, got null"#
    );
}

#[test]
fn nested_errors_are_framed_twice() {
    let inner = call_object(Span { start: 7, end: 19 }, true, Expr::Literal(Value::Boolean(true)));
    let outer = call_object(Span { start: 0, end: 20 }, true, inner);
    let mut ctx = empty_context();
    assert_eq!(
        error_text(&outer.resolve(&mut ctx)),
        r#"function call error for "object" at (0:20): function call error for "object" at (7:19): expected object, got boolean"#
    );
}

#[test]
fn hand_built_call_node_resolves() {
    let e = Expr::Call(Box::new(FunctionCall {
        span: Span { start: 0, end: 1 },
        body: CallBody::Object(ObjectFn { value: Expr::Literal(foo_bar()) }),
    }));
    let mut ctx = empty_context();
    assert_eq!(e.resolve(&mut ctx), Ok(foo_bar()));
}

#[test]
fn kind_lattice_operations() {
    let obj = Kind::object();
    let arr = Kind::array();
    let both = obj.union(&arr);
    assert!(obj.is_subset(&both));
    assert!(!both.is_subset(&obj));
    assert!(both.intersects(&obj));
    assert!(!obj.intersects(&arr));
    assert!(both.is_subset(&Kind::any()));
    assert!(Kind::of_tag(Tag::Bytes).contains_tag(Tag::Bytes));
    assert!(!Kind::of_tag(Tag::Bytes).contains_tag(Tag::Regex));
    assert_eq!(Kind::of_tag(Tag::Object), obj);
}

#[test]
fn type_def_narrowing() {
    let td = TypeDef::infallible(Kind::any());
    let narrowed = td.fallible_unless(&Kind::object()).restrict_object();
    assert!(narrowed.is_fallible());
    assert_eq!(narrowed.kind, Kind::object());
    let td = TypeDef::infallible(Kind::object()).fallible_unless(&Kind::object());
    assert!(!td.is_fallible());
}

#[test]
fn duplicate_is_a_deep_copy() {
    let v = Value::Object(vec![
        ("list".to_string(), Value::Array(vec![text("a"), Value::Float(0u64)])),
        ("re".to_string(), Value::Regex("x".to_string())),
    ]);
    assert_eq!(v.duplicate(), v);
    assert_eq!(Tag::Bytes.name(), "string");
    assert_eq!(text("a").tag(), Tag::Bytes);
}

#[test]
fn decimal_spans_in_error_text() {
    assert_eq!(
        call_error_message("f", Span { start: 1234567, end: 10 }, "m"),
        r#"function call error for "f" at (1234567:10): m"#
    );
}

#[test]
fn environment_kinds_drive_fallibility() {
    let env = ExternalEnv {
        fields: vec![
            ("payload".to_string(), Kind::object()),
            ("payload".to_string(), Kind::array()),
            ("tags".to_string(), Kind::array()),
        ],
    };
    assert_eq!(env.kind_of(&"payload".to_string()), Kind::object());
    assert_eq!(env.kind_of(&"other".to_string()), Kind::any());
    let payload = Expr::Query("payload".to_string());
    let e = compile_call(&env, "object", Span { start: 0, end: 16 }, false, vec![positional(payload)])
        .expect("compiles");
    assert!(!e.type_def(&env).fallible);
    let mut ctx = Context { record: Value::Object(vec![("payload".to_string(), foo_bar())]) };
    assert_eq!(e.resolve(&mut ctx), Ok(foo_bar()));
    let tags = Expr::Query("tags".to_string());
    let r = compile_call(&env, "object", Span { start: 0, end: 13 }, false, vec![positional(tags)]);
    assert!(matches!(r, Err(CompileError::UnhandledFallible { .. })));
}

#[test]
fn compiled_node_matches_native_entry() {
    let env = ExternalEnv::new();
    let params = Object.parameters();
    let args = vec![positional(Expr::Query("x".to_string()))];
    let list = ArgumentList::bind(&params, args, &env, Span { start: 0, end: 9 }).expect("binds");
    let node = Object.compile(&env, list).expect("compiles");
    assert!(node.type_def(&env).fallible);
    let mut ctx = Context { record: Value::Object(vec![("x".to_string(), Value::Boolean(true))]) };
    let interpreted = node.resolve(&mut ctx);
    assert_eq!(error_text(&interpreted), "expected object, got boolean");
    let mut slot = Value::Boolean(true);
    let mut native: Resolved = Ok(Value::Null);
    vrl_fn_object(&mut slot, &mut native);
    assert_eq!(interpreted, native);
    let mut ctx = Context { record: Value::Object(vec![("x".to_string(), foo_bar())]) };
    assert_eq!(node.resolve(&mut ctx), Ok(foo_bar()));
    let framed = Expr::Call(Box::new(FunctionCall { span: Span { start: 0, end: 9 }, body: node }));
    let mut ctx = Context { record: Value::Object(vec![("x".to_string(), Value::Boolean(true))]) };
    assert_eq!(
        error_text(&framed.resolve(&mut ctx)),
        r#"function call error for "object" at (0:9): expected object, got boolean"#
    );
}
