use fine_coverage::tracer::{
    deliver, dispatch, sentinel, ClassificationError, DispatchError, Event, Payload, ProfileEvent,
    TraceEvent, Tracer, SENTINEL_CONTINUE, SENTINEL_ERROR, TRACE_CALL, TRACE_C_CALL,
    TRACE_C_EXCEPTION, TRACE_C_RETURN, TRACE_EXCEPTION, TRACE_LINE, TRACE_OPCODE, TRACE_RETURN,
};
use pyo3::exceptions::PyRuntimeError;
use pyo3::prelude::PyAnyMethods;
use pyo3::{Bound, Py, PyAny, PyErr, Python};

fn eval<'py>(py: Python<'py>, source: &str) -> Bound<'py, PyAny> {
    py.eval_bound(source, None, None).unwrap()
}

fn number(py: Python<'_>, handle: &Py<PyAny>) -> i64 {
    handle.bind(py).extract::<i64>().unwrap()
}

struct Recorder {
    seen: Vec<&'static str>,
    fail_on_line: bool,
}

impl Tracer<TraceEvent> for Recorder {
    fn trace<'py>(
        &mut self,
        _frame: Py<PyAny>,
        event: TraceEvent,
        _py: Python<'py>,
    ) -> Result<(), PyErr> {
        let name = match event {
            TraceEvent::Call => "call",
            TraceEvent::Exception { .. } => "exception",
            TraceEvent::Line => "line",
            TraceEvent::Return(_) => "return",
            TraceEvent::Opcode => "opcode",
        };
        self.seen.push(name);
        if self.fail_on_line && name == "line" {
            return Err(PyRuntimeError::new_err("observer failed"));
        }
        Ok(())
    }
}

impl Tracer<ProfileEvent> for Recorder {
    fn trace<'py>(
        &mut self,
        _frame: Py<PyAny>,
        event: ProfileEvent,
        _py: Python<'py>,
    ) -> Result<(), PyErr> {
        let name = match event {
            ProfileEvent::TraceEvent(_) => "trace",
            ProfileEvent::CCall => "c_call",
            ProfileEvent::CException => "c_exception",
            ProfileEvent::CReturn => "c_return",
        };
        self.seen.push(name);
        Ok(())
    }
}

#[test]
fn codes_are_those_of_the_interpreter() {
    assert_eq!(TRACE_CALL, pyo3::ffi::PyTrace_CALL);
    assert_eq!(TRACE_EXCEPTION, pyo3::ffi::PyTrace_EXCEPTION);
    assert_eq!(TRACE_LINE, pyo3::ffi::PyTrace_LINE);
    assert_eq!(TRACE_RETURN, pyo3::ffi::PyTrace_RETURN);
    assert_eq!(TRACE_C_CALL, pyo3::ffi::PyTrace_C_CALL);
    assert_eq!(TRACE_C_EXCEPTION, pyo3::ffi::PyTrace_C_EXCEPTION);
    assert_eq!(TRACE_C_RETURN, pyo3::ffi::PyTrace_C_RETURN);
    assert_eq!(TRACE_OPCODE, pyo3::ffi::PyTrace_OPCODE);
}

#[test]
fn trace_codes_without_payload() {
    assert!(matches!(TraceEvent::classify(0, None), Ok(TraceEvent::Call)));
    assert!(matches!(TraceEvent::classify(2, None), Ok(TraceEvent::Line)));
    assert!(matches!(TraceEvent::classify(3, None), Ok(TraceEvent::Return(None))));
    assert!(matches!(TraceEvent::classify(7, None), Ok(TraceEvent::Opcode)));
    assert!(matches!(
        TraceEvent::classify(1, None),
        Err(ClassificationError::MalformedPayload)
    ));
    assert!(matches!(TraceEvent::from_raw(0, None), Ok(TraceEvent::Call)));
    assert!(matches!(TraceEvent::from_raw(2, None), Ok(TraceEvent::Line)));
    assert!(matches!(TraceEvent::from_raw(3, None), Ok(TraceEvent::Return(None))));
    assert!(matches!(TraceEvent::from_raw(7, None), Ok(TraceEvent::Opcode)));
    assert!(matches!(
        TraceEvent::from_raw(1, None),
        Err(ClassificationError::MalformedPayload)
    ));
}

#[test]
fn unknown_codes_are_refused() {
    for code in [4, 5, 6, 8, 100, -1, i32::MAX, i32::MIN] {
        assert_eq!(
            TraceEvent::classify(code, None).err(),
            Some(ClassificationError::UnknownEventCode(code))
        );
        assert_eq!(
            TraceEvent::from_raw(code, None).err(),
            Some(ClassificationError::UnknownEventCode(code))
        );
    }
    for code in [8, 100, -1, i32::MAX, i32::MIN] {
        assert_eq!(
            ProfileEvent::classify(code, None).err(),
            Some(ClassificationError::UnknownEventCode(code))
        );
        assert_eq!(
            ProfileEvent::from_raw(code, None).err(),
            Some(ClassificationError::UnknownEventCode(code))
        );
    }
}

#[test]
fn exception_needs_three_handles() {
    Python::with_gil(|py| {
        match TraceEvent::from_raw(TRACE_EXCEPTION, Some(eval(py, "(10, 20, 30)"))) {
            Ok(TraceEvent::Exception { exc_type, exc_value, exc_traceback }) => {
                assert_eq!(number(py, &exc_type), 10);
                assert_eq!(number(py, &exc_value), 20);
                assert_eq!(number(py, &exc_traceback), 30);
            },
            _ => panic!("three handles were not read as an exception"),
        }
        for payload in ["(1, 2)", "(1, 2, 3, 4)", "()", "[1, 2, 3]", "None", "'abc'"] {
            assert_eq!(
                TraceEvent::from_raw(TRACE_EXCEPTION, Some(eval(py, payload))).err(),
                Some(ClassificationError::MalformedPayload)
            );
            assert_eq!(
                ProfileEvent::from_raw(TRACE_EXCEPTION, Some(eval(py, payload))).err(),
                Some(ClassificationError::MalformedPayload)
            );
        }
        assert_eq!(
            ProfileEvent::from_raw(TRACE_EXCEPTION, None).err(),
            Some(ClassificationError::MalformedPayload)
        );
    });
}

#[test]
fn return_takes_any_payload() {
    Python::with_gil(|py| {
        match TraceEvent::from_raw(TRACE_RETURN, Some(eval(py, "41 + 1"))) {
            Ok(TraceEvent::Return(Some(value))) => assert_eq!(number(py, &value), 42),
            _ => panic!("a return value was not kept"),
        }
        match TraceEvent::from_raw(TRACE_RETURN, Some(eval(py, "(1, 2, 3)"))) {
            Ok(TraceEvent::Return(Some(value))) => {
                assert_eq!(value.bind(py).extract::<(i64, i64, i64)>().unwrap(), (1, 2, 3));
            },
            _ => panic!("a tuple was not kept as a return value"),
        }
        assert!(matches!(
            TraceEvent::from_raw(TRACE_RETURN, None),
            Ok(TraceEvent::Return(None))
        ));
        assert!(matches!(
            TraceEvent::from_raw(TRACE_LINE, Some(eval(py, "None"))),
            Ok(TraceEvent::Line)
        ));
    });
}

#[test]
fn payload_is_split_only_for_exceptions() {
    Python::with_gil(|py| {
        assert!(Payload::read(TRACE_EXCEPTION, None).is_none());
        assert!(Payload::read(TRACE_RETURN, None).is_none());
        let read = Payload::read(TRACE_EXCEPTION, Some(eval(py, "(1, 2, 3)"))).unwrap();
        assert_eq!(read.value.bind(py).extract::<(i64, i64, i64)>().unwrap(), (1, 2, 3));
        let (a, b, c) = read.parts.unwrap();
        assert_eq!((number(py, &a), number(py, &b), number(py, &c)), (1, 2, 3));
        let read = Payload::read(TRACE_RETURN, Some(eval(py, "(1, 2, 3)"))).unwrap();
        assert!(read.parts.is_none());
        let read = Payload::read(TRACE_EXCEPTION, Some(eval(py, "5"))).unwrap();
        assert!(read.parts.is_none());
        assert_eq!(number(py, &read.value), 5);
    });
}

#[test]
fn classify_reads_the_payload() {
    Python::with_gil(|py| {
        let handle = |n: i64| eval(py, &n.to_string()).unbind();
        let whole = Payload { value: handle(1), parts: Some((handle(2), handle(3), handle(4))) };
        match TraceEvent::classify(TRACE_EXCEPTION, Some(whole)) {
            Ok(TraceEvent::Exception { exc_type, exc_value, exc_traceback }) => {
                assert_eq!(number(py, &exc_type), 2);
                assert_eq!(number(py, &exc_value), 3);
                assert_eq!(number(py, &exc_traceback), 4);
            },
            _ => panic!("the parts were not read"),
        }
        let whole = Payload { value: handle(1), parts: Some((handle(2), handle(3), handle(4))) };
        match TraceEvent::classify(TRACE_RETURN, Some(whole)) {
            Ok(TraceEvent::Return(Some(value))) => assert_eq!(number(py, &value), 1),
            _ => panic!("the value was not kept"),
        }
        let bare = Payload { value: handle(1), parts: None };
        assert_eq!(
            TraceEvent::classify(TRACE_EXCEPTION, Some(bare)).err(),
            Some(ClassificationError::MalformedPayload)
        );
    });
}

#[test]
fn profile_events_take_in_the_trace_events() {
    Python::with_gil(|py| {
        for code in -2..12 {
            for payload in [None, Some("7"), Some("(1, 2, 3)")] {
                let object = |p: Option<&str>| p.map(|source| eval(py, source));
                let trace = TraceEvent::from_raw(code, object(payload));
                let profile = ProfileEvent::from_raw(code, object(payload));
                match (trace, profile) {
                    (Ok(TraceEvent::Call), Ok(ProfileEvent::TraceEvent(TraceEvent::Call))) => {
                        assert_eq!(code, 0)
                    },
                    (
                        Ok(TraceEvent::Exception { .. }),
                        Ok(ProfileEvent::TraceEvent(TraceEvent::Exception { exc_value, .. })),
                    ) => {
                        assert_eq!(code, 1);
                        assert_eq!(number(py, &exc_value), 2);
                    },
                    (Ok(TraceEvent::Line), Ok(ProfileEvent::TraceEvent(TraceEvent::Line))) => {
                        assert_eq!(code, 2)
                    },
                    (
                        Ok(TraceEvent::Return(a)),
                        Ok(ProfileEvent::TraceEvent(TraceEvent::Return(b))),
                    ) => {
                        assert_eq!(code, 3);
                        assert_eq!(a.is_some(), payload.is_some());
                        assert_eq!(b.is_some(), payload.is_some());
                    },
                    (Ok(TraceEvent::Opcode), Ok(ProfileEvent::TraceEvent(TraceEvent::Opcode))) => {
                        assert_eq!(code, 7)
                    },
                    (Err(ClassificationError::UnknownEventCode(c)), Ok(ProfileEvent::CCall)) => {
                        assert_eq!((c, code), (4, 4))
                    },
                    (
                        Err(ClassificationError::UnknownEventCode(c)),
                        Ok(ProfileEvent::CException),
                    ) => assert_eq!((c, code), (5, 5)),
                    (Err(ClassificationError::UnknownEventCode(c)), Ok(ProfileEvent::CReturn)) => {
                        assert_eq!((c, code), (6, 6))
                    },
                    (Err(a), Err(b)) => {
                        assert_eq!(a, b);
                        assert!(code == 1 || !(0..=7).contains(&code));
                    },
                    _ => panic!("the two classifications of code {code} disagree"),
                }
            }
        }
    });
}

#[test]
fn native_calls_are_profile_events_only() {
    assert!(matches!(ProfileEvent::classify(TRACE_C_CALL, None), Ok(ProfileEvent::CCall)));
    assert!(matches!(
        ProfileEvent::classify(TRACE_C_EXCEPTION, None),
        Ok(ProfileEvent::CException)
    ));
    assert!(matches!(ProfileEvent::classify(TRACE_C_RETURN, None), Ok(ProfileEvent::CReturn)));
    assert!(matches!(
        ProfileEvent::classify(TRACE_OPCODE, None),
        Ok(ProfileEvent::TraceEvent(TraceEvent::Opcode))
    ));
    Python::with_gil(|py| {
        assert!(matches!(
            ProfileEvent::from_raw(TRACE_C_CALL, Some(eval(py, "len"))),
            Ok(ProfileEvent::CCall)
        ));
    });
}

#[test]
fn sentinels() {
    assert_eq!(SENTINEL_CONTINUE, 0);
    assert_eq!(SENTINEL_ERROR, -1);
    assert_eq!(sentinel(&Ok(())), 0);
    assert_eq!(
        sentinel(&Err(DispatchError::Classification(ClassificationError::MalformedPayload))),
        -1
    );
    assert_eq!(
        sentinel(&Err(DispatchError::Classification(ClassificationError::UnknownEventCode(0)))),
        -1
    );
    assert_eq!(sentinel(&Err(DispatchError::Observer(PyRuntimeError::new_err("x")))), -1);
}

#[test]
fn dispatch_hands_events_to_the_observer() {
    Python::with_gil(|py| {
        let mut recorder = Recorder { seen: Vec::new(), fail_on_line: false };
        let frame = || eval(py, "object()").unbind();
        for code in [0, 2, 3, 7] {
            let outcome = dispatch::<TraceEvent, Recorder>(&mut recorder, frame(), code, None, py);
            assert!(outcome.is_ok());
        }
        let outcome = dispatch::<TraceEvent, Recorder>(
            &mut recorder,
            frame(),
            1,
            Some(eval(py, "(1, 2, 3)")),
            py,
        );
        assert!(outcome.is_ok());
        assert_eq!(recorder.seen, vec!["call", "line", "return", "opcode", "exception"]);
        let outcome = dispatch::<TraceEvent, Recorder>(&mut recorder, frame(), 4, None, py);
        assert!(matches!(
            outcome,
            Err(DispatchError::Classification(ClassificationError::UnknownEventCode(4)))
        ));
        assert_eq!(recorder.seen.len(), 5);
        let mut profiler = Recorder { seen: Vec::new(), fail_on_line: false };
        for code in [0, 4, 5, 6] {
            let outcome =
                dispatch::<ProfileEvent, Recorder>(&mut profiler, frame(), code, None, py);
            assert!(outcome.is_ok());
        }
        assert_eq!(profiler.seen, vec!["trace", "c_call", "c_exception", "c_return"]);
    });
}

#[test]
fn observer_failure_becomes_the_error_sentinel() {
    Python::with_gil(|py| {
        let mut recorder = Recorder { seen: Vec::new(), fail_on_line: true };
        let frame = || eval(py, "object()").unbind();
        let outcome = dispatch::<TraceEvent, Recorder>(&mut recorder, frame(), 2, None, py);
        match &outcome {
            Err(DispatchError::Observer(error)) => {
                assert!(error.is_instance_of::<PyRuntimeError>(py));
            },
            _ => panic!("the observer's failure was lost"),
        }
        assert_eq!(sentinel(&outcome), SENTINEL_ERROR);
        let outcome = dispatch::<TraceEvent, Recorder>(&mut recorder, frame(), 0, None, py);
        assert_eq!(sentinel(&outcome), SENTINEL_CONTINUE);
        assert_eq!(recorder.seen, vec!["line", "call"]);
    });
}

#[test]
fn deliver_passes_a_classification_error_on() {
    Python::with_gil(|py| {
        let mut recorder = Recorder { seen: Vec::new(), fail_on_line: false };
        let frame = || eval(py, "object()").unbind();
        let outcome = deliver::<TraceEvent, Recorder>(
            &mut recorder,
            frame(),
            Err(ClassificationError::UnknownEventCode(9)),
            py,
        );
        assert!(matches!(
            outcome,
            Err(DispatchError::Classification(ClassificationError::UnknownEventCode(9)))
        ));
        assert!(recorder.seen.is_empty());
        let outcome =
            deliver::<TraceEvent, Recorder>(&mut recorder, frame(), Ok(TraceEvent::Opcode), py);
        assert!(outcome.is_ok());
        assert_eq!(recorder.seen, vec!["opcode"]);
    });
}
