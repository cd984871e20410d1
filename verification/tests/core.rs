use vrl_core::binder::{FunctionArgument, bind_arguments};
use vrl_core::downcase::Downcase;
use vrl_core::error::CompileError;
use vrl_core::expression::{Context, Expression};
use vrl_core::function::{FunctionCompileContext, Parameter, compile_call, lookup, registry};
use vrl_core::kind::Kind;
use vrl_core::state::Compiler;
use vrl_core::value::Value;

fn bytes_value(s: &str) -> Value {
    Value::Bytes(s.as_bytes().to_vec())
}

fn literal_arg(keyword: &str, v: Value) -> FunctionArgument {
    FunctionArgument { keyword: keyword.to_string(), expr: Expression::Literal(v) }
}

fn compile_downcase(args: Vec<FunctionArgument>) -> Result<Expression, CompileError> {
    let f = lookup("downcase").expect("downcase must be registered");
    compile_call(&f, args, &Compiler::new(), &FunctionCompileContext::new())
}

#[test]
fn simple() {
    let e = compile_downcase(vec![literal_arg("value", bytes_value("FOO 2 bar"))]).unwrap();
    let got = e.resolve(&Context::new()).unwrap();
    assert_eq!(got, bytes_value("foo 2 bar"));
    let t = e.type_def(&Compiler::new());
    assert!(t.kind.bytes);
    assert!(!t.kind.integer);
    assert!(!t.fallible);
}

#[test]
fn downcase_scenario_both_backends() {
    // The canonical program: downcase("FOO 2 BAR").
    let e = compile_downcase(vec![literal_arg("value", bytes_value("FOO 2 BAR"))]).unwrap();

    let t = e.type_def(&Compiler::new());
    assert_eq!(t.kind, Kind { bytes: true, ..Kind::empty() });
    assert!(!t.fallible);

    // Interpreter path.
    let interpreted = e.resolve(&Context::new()).unwrap();
    assert_eq!(interpreted, bytes_value("foo 2 bar"));

    // Direct-call path.
    let f = lookup("downcase").unwrap();
    let mut vm_args = vrl_core::vm::VmArgumentList { entries: Vec::new() };
    vm_args.entries.push(("value".to_string(), Some(bytes_value("FOO 2 BAR"))));
    let called = f.call(vm_args);
    assert_eq!(called, bytes_value("foo 2 bar"));

    // Native dispatch entry.
    let mut input: Result<Value, _> = Ok(bytes_value("FOO 2 BAR"));
    let mut output: Result<Value, _> = Ok(Value::Null);
    vrl_core::downcase::vrl_fn_downcase(&mut input, &mut output);
    assert_eq!(input, Ok(Value::Null));
    assert_eq!(output, Ok(bytes_value("foo 2 bar")));
}

#[test]
fn example_conformance() {
    for f in registry() {
        for example in f.examples() {
            let compiled =
                compile_call(&f, example.args, &Compiler::new(), &FunctionCompileContext::new())
                    .expect("example must compile");
            let got = compiled.resolve(&Context::new());
            assert_eq!(got, example.result, "example {} diverged", example.title);
        }
    }
}

#[test]
fn missing_required_argument() {
    let r = compile_downcase(Vec::new());
    assert_eq!(r, Err(CompileError::MissingArgument { keyword: "value".to_string() }));
}

#[test]
fn unknown_keyword() {
    let r = compile_downcase(vec![literal_arg("other", bytes_value("x"))]);
    assert_eq!(r, Err(CompileError::UnknownKeyword { keyword: "other".to_string() }));
}

#[test]
fn static_type_mismatch() {
    let r = compile_downcase(vec![literal_arg("value", Value::Integer(2))]);
    assert_eq!(r, Err(CompileError::TypeMismatch { keyword: "value".to_string() }));
}

#[test]
fn unknown_keyword_wins_over_missing() {
    let r = compile_downcase(vec![literal_arg("other", bytes_value("x"))]);
    assert!(matches!(r, Err(CompileError::UnknownKeyword { .. })));
}

#[test]
fn first_argument_wins() {
    let e = compile_downcase(vec![
        literal_arg("value", bytes_value("FIRST")),
        literal_arg("value", bytes_value("SECOND")),
    ])
    .unwrap();
    assert_eq!(e.resolve(&Context::new()).unwrap(), bytes_value("first"));
}

#[test]
fn compile_idempotent() {
    let e1 = compile_downcase(vec![literal_arg("value", bytes_value("A"))]).unwrap();
    let e2 = compile_downcase(vec![literal_arg("value", bytes_value("A"))]).unwrap();
    assert_eq!(e1.type_def(&Compiler::new()), e2.type_def(&Compiler::new()));
}

#[test]
fn runtime_type_mismatch_surfaces() {
    // A hand-built node whose argument is not statically bytes: the
    // runtime shape check reports the divergence.
    let e = Expression::Downcase(vrl_core::downcase::DowncaseFn {
        value: Box::new(Expression::Literal(Value::Integer(7))),
    });
    let r = e.resolve(&Context::new());
    match r {
        Err(vrl_core::error::RuntimeError::TypeMismatch { expected, got }) => {
            assert_eq!(expected, Kind { bytes: true, ..Kind::empty() });
            assert_eq!(got, Kind { integer: true, ..Kind::empty() });
        }
        other => panic!("expected a type mismatch, got {:?}", other),
    }
}

#[test]
fn lossy_decoding() {
    let e = compile_downcase(vec![literal_arg(
        "value",
        Value::Bytes(vec![0xFF, b'A', b'B']),
    )])
    .unwrap();
    let got = e.resolve(&Context::new()).unwrap();
    assert_eq!(got, Value::Bytes("\u{FFFD}ab".as_bytes().to_vec()));
}

#[test]
fn empty_bytes() {
    let e = compile_downcase(vec![literal_arg("value", bytes_value(""))]).unwrap();
    assert_eq!(e.resolve(&Context::new()).unwrap(), bytes_value(""));
}

#[test]
fn unicode_lowercasing() {
    let e = compile_downcase(vec![literal_arg("value", bytes_value("ÄÖÜ Straße"))]).unwrap();
    assert_eq!(e.resolve(&Context::new()).unwrap(), bytes_value("äöü straße"));
}

#[test]
fn registry_and_lookup() {
    let fns = registry();
    assert_eq!(fns.len(), 1);
    assert_eq!(fns[0].identifier(), "downcase");
    assert!(lookup("downcase").is_some());
    assert!(lookup("upcase").is_none());
    assert_eq!(Downcase.identifier(), "downcase");
}

#[test]
fn declared_parameters() {
    let params = Downcase.parameters();
    assert_eq!(params.len(), 1);
    assert_eq!(params[0].keyword, "value");
    assert!(params[0].required);
    assert!(params[0].kind.bytes);
    assert!(!other_shapes_set(&params[0].kind));
}

#[test]
fn optional_parameter_marker() {
    // A parameter list with an optional slot: an absent optional binds
    // to the explicit "not provided" marker, distinguishable from null.
    let params = vec![
        Parameter { keyword: "value".to_string(), kind: Kind::bytes_only(), required: true },
        Parameter { keyword: "extra".to_string(), kind: Kind::any(), required: false },
    ];
    let bound = bind_arguments(
        &params,
        vec![literal_arg("value", bytes_value("x"))],
        &Compiler::new(),
    )
    .unwrap();
    assert_eq!(bound.entries.len(), 2);
    assert_eq!(bound.entries[0].0, "value");
    assert!(bound.entries[0].1.is_some());
    assert_eq!(bound.entries[1].0, "extra");
    assert!(bound.entries[1].1.is_none());
}

fn other_shapes_set(k: &Kind) -> bool {
    k.null || k.boolean || k.integer || k.float || k.timestamp || k.array || k.mapping || k.regex
}
