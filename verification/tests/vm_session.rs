use vrl_core::error::RuntimeError;
use vrl_core::function::registry;
use vrl_core::kind::Kind;
use vrl_core::session::{
    ExitStatus, SessionAction, SessionEvent, SessionState, cmd_exit, cmd_precheck, session_step,
};
use vrl_core::typedef::TypeDef;
use vrl_core::value::Value;
use vrl_core::vm::{NativeEntry, VmArgumentList, build_dispatch_table};

fn bytes_value(s: &str) -> Value {
    Value::Bytes(s.as_bytes().to_vec())
}

#[test]
fn dispatch_table_is_generated_from_registry() {
    let fns = registry();
    let table = build_dispatch_table(&fns);
    assert_eq!(table.entries.len(), fns.len());
    assert_eq!(table.lookup(&"downcase".to_string()), Some(NativeEntry::Downcase));
    assert_eq!(table.lookup(&"upcase".to_string()), None);
}

#[test]
fn native_entry_matches_interpreter() {
    let fns = registry();
    let table = build_dispatch_table(&fns);
    let entry = table.lookup(&"downcase".to_string()).unwrap();

    let mut input: Result<Value, RuntimeError> = Ok(bytes_value("MiXeD 7"));
    let mut output: Result<Value, RuntimeError> = Ok(Value::Null);
    entry.invoke(&mut input, &mut output);
    assert_eq!(input, Ok(Value::Null));
    assert_eq!(output, Ok(bytes_value("mixed 7")));
}

#[test]
fn native_entry_propagates_errors() {
    let fns = registry();
    let table = build_dispatch_table(&fns);
    let entry = table.lookup(&"downcase".to_string()).unwrap();

    // An errored input slot passes through unchanged.
    let upstream = RuntimeError::TypeMismatch {
        expected: Kind::bytes_only(),
        got: Kind { null: true, ..Kind::empty() },
    };
    let mut input: Result<Value, RuntimeError> = Err(upstream);
    let mut output: Result<Value, RuntimeError> = Ok(Value::Null);
    entry.invoke(&mut input, &mut output);
    assert_eq!(output, Err(upstream));

    // A non-bytes value yields a type mismatch.
    let mut input: Result<Value, RuntimeError> = Ok(Value::Integer(3));
    let mut output: Result<Value, RuntimeError> = Ok(Value::Null);
    entry.invoke(&mut input, &mut output);
    match output {
        Err(RuntimeError::TypeMismatch { got, .. }) => {
            assert_eq!(got, Kind { integer: true, ..Kind::empty() })
        }
        other => panic!("expected a type mismatch, got {:?}", other),
    }
}

#[test]
fn vm_arguments_fetch_by_keyword() {
    let mut args = VmArgumentList { entries: Vec::new() };
    args.entries.push(("other".to_string(), Some(Value::Integer(1))));
    args.entries.push(("value".to_string(), Some(bytes_value("X"))));
    let got = args.required(&"value".to_string());
    assert_eq!(got, bytes_value("X"));
}

#[test]
fn value_model_accessors() {
    assert_eq!(bytes_value("ab").try_bytes(), Ok(b"ab".to_vec()));
    match Value::Boolean(true).try_bytes() {
        Err(RuntimeError::TypeMismatch { expected, got }) => {
            assert_eq!(expected, Kind::bytes_only());
            assert_eq!(got, Kind { boolean: true, ..Kind::empty() });
        }
        other => panic!("expected a type mismatch, got {:?}", other),
    }
}

#[test]
fn value_deep_copy() {
    let nested = Value::Array(vec![
        Value::Mapping(vec![(b"k".to_vec(), Value::Integer(1))]),
        Value::Float(0x3FF0000000000000),
        Value::Timestamp(1_600_000_000_000_000_000),
        Value::Regex(b"a+".to_vec()),
        Value::Null,
    ]);
    assert_eq!(nested.clone_value(), nested);
}

#[test]
fn kind_subset_rules() {
    let bytes = Kind::bytes_only();
    let any = Kind::any();
    assert!(bytes.accepts(&bytes));
    assert!(any.accepts(&bytes));
    assert!(any.accepts(&any));
    assert!(!bytes.accepts(&any));
    assert!(!bytes.accepts(&Kind { integer: true, ..Kind::empty() }));
    // The empty set is below everything.
    assert!(bytes.accepts(&Kind::empty()));
}

#[test]
fn typedef_builders() {
    let t = TypeDef::new().bytes().infallible();
    assert!(t.kind.bytes && !t.fallible);
    let t = TypeDef::new().bytes().fallible();
    assert!(t.kind.bytes && t.fallible);
    assert_eq!(TypeDef::new().kind, Kind::empty());
}

#[test]
fn precheck_decisions() {
    assert_eq!(cmd_precheck(false, true), Some(ExitStatus::IoError));
    assert_eq!(cmd_precheck(false, false), Some(ExitStatus::IoError));
    assert_eq!(cmd_precheck(true, false), Some(ExitStatus::Unavailable));
    assert_eq!(cmd_precheck(true, true), None);
}

#[test]
fn exit_codes() {
    assert_eq!(ExitStatus::Success.code(), 0);
    assert_eq!(ExitStatus::Unavailable.code(), 69);
    assert_eq!(ExitStatus::IoError.code(), 74);
    assert_eq!(cmd_exit(true), ExitStatus::Success);
    assert_eq!(cmd_exit(false), ExitStatus::IoError);
}

#[test]
fn session_retries_and_reconnects() {
    // A failed initialization backs off and retries.
    let (s, a) = session_step(SessionState::Initializing, SessionEvent::InitFailed, false);
    assert_eq!(s, SessionState::Initializing);
    assert_eq!(a, SessionAction::Backoff { delay_ms: 5000 });

    // Success publishes the fetched state and moves on to connecting.
    let (s, a) = session_step(SessionState::Initializing, SessionEvent::InitSucceeded, false);
    assert_eq!(s, SessionState::Connecting);
    assert_eq!(a, SessionAction::PublishInitialState);

    // A failed connection backs off and re-initializes from the top.
    let (s, a) = session_step(SessionState::Connecting, SessionEvent::ConnectFailed, false);
    assert_eq!(s, SessionState::Initializing);
    assert_eq!(a, SessionAction::Backoff { delay_ms: 5000 });

    // A connection announces itself with the observed timestamp.
    let (s, a) = session_step(
        SessionState::Connecting,
        SessionEvent::ConnectSucceeded { connected_at: 42 },
        false,
    );
    assert_eq!(s, SessionState::Streaming);
    assert_eq!(a, SessionAction::AnnounceConnected { connected_at: 42 });

    // When the streams drop, the session announces the disconnect and
    // loops back around.
    let (s, a) = session_step(SessionState::Streaming, SessionEvent::StreamsFinished, false);
    assert_eq!(s, SessionState::Initializing);
    assert_eq!(a, SessionAction::AnnounceDisconnected { delay_ms: 5000, shutdown: false });

    // Unless reconnecting is disabled: then it shuts down for good.
    let (s, a) = session_step(SessionState::Streaming, SessionEvent::StreamsFinished, true);
    assert_eq!(s, SessionState::Finished);
    assert_eq!(a, SessionAction::AnnounceDisconnected { delay_ms: 5000, shutdown: true });

    // An event that does not belong to the state changes nothing.
    let (s, a) = session_step(SessionState::Finished, SessionEvent::InitFailed, false);
    assert_eq!(s, SessionState::Finished);
    assert_eq!(a, SessionAction::Ignore);
}
