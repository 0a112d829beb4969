use vstd::prelude::*;
use crate::host::extract_triple;
use crate::host::unbind;

verus! {

/// The code of a notification that a function is being entered.
pub const TRACE_CALL: i32 = 0;

/// The code of a notification that an exception has been raised.
pub const TRACE_EXCEPTION: i32 = 1;

/// The code of a notification that a new line is about to be executed.
pub const TRACE_LINE: i32 = 2;

/// The code of a notification that a function is about to return.
pub const TRACE_RETURN: i32 = 3;

/// The code of a notification that a native function is about to be called.
pub const TRACE_C_CALL: i32 = 4;

/// The code of a notification that a native function has raised an exception.
pub const TRACE_C_EXCEPTION: i32 = 5;

/// The code of a notification that a native function has returned.
pub const TRACE_C_RETURN: i32 = 6;

/// The code of a notification that a new opcode is about to be executed.
pub const TRACE_OPCODE: i32 = 7;

/// What the interpreter reports to a trace function.
pub enum TraceEvent {
    Call,
    Exception { exc_type: pyo3::Py<pyo3::PyAny>, exc_value: pyo3::Py<pyo3::PyAny>, exc_traceback: pyo3::Py<pyo3::PyAny> },
    Line,
    /// The value that is returned; `None` where the frame is left because an
    /// exception unwinds it.
    Return(Option<pyo3::Py<pyo3::PyAny>>),
    Opcode,
}

/// What the interpreter reports to a profile function: the trace events, and
/// the calls into native functions.
pub enum ProfileEvent {
    TraceEvent(TraceEvent),
    CCall,
    CException,
    CReturn,
}

/// Why a notification could not be turned into an event.
#[derive(Clone, Copy, Debug, PartialEq, Eq, Structural)]
pub enum ClassificationError {
    /// The code names no kind of event.
    UnknownEventCode(i32),
    /// The notification of an exception came without its three handles.
    MalformedPayload,
}

/// The value that came with a notification, and the three handles it splits
/// into where it was read as the state of an exception and is a tuple of
/// three.
pub struct Payload {
    pub value: pyo3::Py<pyo3::PyAny>,
    pub parts: Option<(pyo3::Py<pyo3::PyAny>, pyo3::Py<pyo3::PyAny>, pyo3::Py<pyo3::PyAny>)>,
}

/// The value of a payload, where there is one.
pub open spec fn payload_value(payload: Option<Payload>) -> Option<pyo3::Py<pyo3::PyAny>> {
    match payload {
        Some(p) => Some(p.value),
        None => None,
    }
}

/// The trace event that a notification with `code` and `payload` stands for.
pub open spec fn trace_event_of(code: i32, payload: Option<Payload>) -> Result<
    TraceEvent,
    ClassificationError,
> {
    if code == TRACE_CALL {
        Ok(TraceEvent::Call)
    } else if code == TRACE_EXCEPTION {
        match payload {
            Some(Payload { value: _, parts: Some((exc_type, exc_value, exc_traceback)) }) => Ok(
                TraceEvent::Exception { exc_type, exc_value, exc_traceback },
            ),
            _ => Err(ClassificationError::MalformedPayload),
        }
    } else if code == TRACE_LINE {
        Ok(TraceEvent::Line)
    } else if code == TRACE_RETURN {
        Ok(TraceEvent::Return(payload_value(payload)))
    } else if code == TRACE_OPCODE {
        Ok(TraceEvent::Opcode)
    } else {
        Err(ClassificationError::UnknownEventCode(code))
    }
}

/// The profile event that a notification with `code` and `payload` stands
/// for: the trace event where there is one, else one of the events of native
/// calls, else the error that the trace classification gave.
pub open spec fn profile_event_of(code: i32, payload: Option<Payload>) -> Result<
    ProfileEvent,
    ClassificationError,
> {
    match trace_event_of(code, payload) {
        Ok(event) => Ok(ProfileEvent::TraceEvent(event)),
        Err(error) => if code == TRACE_C_CALL {
            Ok(ProfileEvent::CCall)
        } else if code == TRACE_C_EXCEPTION {
            Ok(ProfileEvent::CException)
        } else if code == TRACE_C_RETURN {
            Ok(ProfileEvent::CReturn)
        } else {
            Err(error)
        },
    }
}

/// The profile events take in the trace events: a notification that
/// classifies as a trace event classifies as the profile event that wraps the
/// same trace event.
pub proof fn lemma_profile_embeds_trace(code: i32, payload: Option<Payload>)
    ensures
        trace_event_of(code, payload) matches Ok(event) ==> profile_event_of(code, payload) == Ok::<
            ProfileEvent,
            ClassificationError,
        >(ProfileEvent::TraceEvent(event)),
        <TraceEvent as Event>::classified(code, payload) matches Ok(event) ==> <ProfileEvent as Event>::classified(
            code,
            payload,
        ) == Ok::<ProfileEvent, ClassificationError>(ProfileEvent::TraceEvent(event)),
{
}

/// Whether `payload` can be what was read from a notification with `code`
/// that came with a value (`present`) or without one.
pub open spec fn payload_read_from(code: i32, present: bool, payload: Option<Payload>) -> bool {
    &&& payload is Some <==> present
    &&& payload matches Some(p) ==> (p.parts is Some ==> code == TRACE_EXCEPTION)
}

impl Payload {
    /// Reads the value that came with a notification. For a notification of
    /// an exception the value is asked for its three handles.
    pub fn read<'py>(what: i32, arg: Option<pyo3::Bound<'py, pyo3::PyAny>>) -> (payload: Option<
        Payload,
    >)
        ensures
            payload_read_from(what, arg is Some, payload),
    {
        match arg {
            None => None,
            Some(object) => {
                let parts = if what == TRACE_EXCEPTION {
                    match extract_triple(&object) {
                        Ok(triple) => Some(triple),
                        Err(_) => None,
                    }
                } else {
                    None
                };
                Some(Payload { value: unbind(object), parts })
            },
        }
    }
}

/// A family of events that notifications can be classified into.
pub trait Event: Sized {
    /// The event that a notification with `code` and `payload` stands for.
    spec fn classified(code: i32, payload: Option<Payload>) -> Result<Self, ClassificationError>;

    /// Classifies a notification whose payload has been read.
    fn classify(code: i32, payload: Option<Payload>) -> (r: Result<Self, ClassificationError>)
        ensures
            r == Self::classified(code, payload),
    ;

    /// Classifies a notification as the interpreter delivers it.
    fn from_raw<'py>(what: i32, arg: Option<pyo3::Bound<'py, pyo3::PyAny>>) -> (r: Result<
        Self,
        ClassificationError,
    >)
        ensures
            exists|payload: Option<Payload>|
                payload_read_from(what, arg is Some, payload) && r == #[trigger] Self::classified(
                    what,
                    payload,
                ),
    ;
}

impl Event for TraceEvent {
    open spec fn classified(code: i32, payload: Option<Payload>) -> Result<
        Self,
        ClassificationError,
    > {
        trace_event_of(code, payload)
    }

    fn classify(code: i32, payload: Option<Payload>) -> (r: Result<Self, ClassificationError>) {
        if code == TRACE_CALL {
            Ok(TraceEvent::Call)
        } else if code == TRACE_EXCEPTION {
            match payload {
                Some(Payload { value: _, parts: Some((exc_type, exc_value, exc_traceback)) }) => Ok(
                    TraceEvent::Exception { exc_type, exc_value, exc_traceback },
                ),
                _ => Err(ClassificationError::MalformedPayload),
            }
        } else if code == TRACE_LINE {
            Ok(TraceEvent::Line)
        } else if code == TRACE_RETURN {
            match payload {
                Some(p) => Ok(TraceEvent::Return(Some(p.value))),
                None => Ok(TraceEvent::Return(None)),
            }
        } else if code == TRACE_OPCODE {
            Ok(TraceEvent::Opcode)
        } else {
            Err(ClassificationError::UnknownEventCode(code))
        }
    }

    fn from_raw<'py>(what: i32, arg: Option<pyo3::Bound<'py, pyo3::PyAny>>) -> (r: Result<
        Self,
        ClassificationError,
    >) {
        let payload = Payload::read(what, arg);
        Self::classify(what, payload)
    }
}

impl Event for ProfileEvent {
    open spec fn classified(code: i32, payload: Option<Payload>) -> Result<
        Self,
        ClassificationError,
    > {
        profile_event_of(code, payload)
    }

    fn classify(code: i32, payload: Option<Payload>) -> (r: Result<Self, ClassificationError>) {
        match TraceEvent::classify(code, payload) {
            Ok(event) => Ok(ProfileEvent::TraceEvent(event)),
            Err(error) => {
                if code == TRACE_C_CALL {
                    Ok(ProfileEvent::CCall)
                } else if code == TRACE_C_EXCEPTION {
                    Ok(ProfileEvent::CException)
                } else if code == TRACE_C_RETURN {
                    Ok(ProfileEvent::CReturn)
                } else {
                    Err(error)
                }
            },
        }
    }

    fn from_raw<'py>(what: i32, arg: Option<pyo3::Bound<'py, pyo3::PyAny>>) -> (r: Result<
        Self,
        ClassificationError,
    >) {
        let payload = Payload::read(what, arg);
        Self::classify(what, payload)
    }
}

/// An observer of events of the family `E`.
pub trait Tracer<E: Event>: Sized {
    /// What this kind of observer promises of `trace`: whether an observer
    /// that was `before` can be `after` once it has been handed `event` and
    /// has answered `outcome`. An observer that says nothing promises
    /// nothing.
    open spec fn observes(
        before: Self,
        event: E,
        after: Self,
        outcome: Result<(), pyo3::PyErr>,
    ) -> bool {
        true
    }

    /// Takes note of `event`, which happened in `frame`. An error is raised in
    /// the traced program.
    fn trace<'py>(&mut self, frame: pyo3::Py<pyo3::PyAny>, event: E, py: pyo3::Python<'py>) -> (r:
        Result<(), pyo3::PyErr>)
        ensures
            Self::observes(*old(self), event, *final(self), r),
    ;
}

/// What a dispatch returns for the answer `outcome` of the observer.
pub open spec fn observed(outcome: Result<(), pyo3::PyErr>) -> Result<(), DispatchError> {
    match outcome {
        Ok(_) => Ok(()),
        Err(error) => Err(DispatchError::Observer(error)),
    }
}

/// Why a notification did not reach the end of its dispatch.
pub enum DispatchError {
    /// The notification could not be classified; the observer has not seen it.
    Classification(ClassificationError),
    /// The observer failed with this error.
    Observer(pyo3::PyErr),
}

/// What the bridge returns to the interpreter to go on tracing.
pub const SENTINEL_CONTINUE: i32 = 0;

/// What the bridge returns to the interpreter to signal an error.
pub const SENTINEL_ERROR: i32 = -1;

/// The value that the interpreter is to get back for `outcome`.
pub open spec fn sentinel_of(outcome: Result<(), DispatchError>) -> i32 {
    if outcome is Ok {
        SENTINEL_CONTINUE
    } else {
        SENTINEL_ERROR
    }
}

/// The value that the interpreter is to get back for `outcome`.
pub fn sentinel(outcome: &Result<(), DispatchError>) -> (code: i32)
    ensures
        code == sentinel_of(*outcome),
{
    match outcome {
        Ok(_) => SENTINEL_CONTINUE,
        Err(_) => SENTINEL_ERROR,
    }
}

/// Hands a classified notification to `tracer`. A notification that could not
/// be classified is not handed on, and `tracer` stays as it was.
pub fn deliver<'py, E: Event, P: Tracer<E>>(
    tracer: &mut P,
    frame: pyo3::Py<pyo3::PyAny>,
    classified: Result<E, ClassificationError>,
    py: pyo3::Python<'py>,
) -> (r: Result<(), DispatchError>)
    ensures
        classified matches Err(error) ==> r == Err::<(), DispatchError>(
            DispatchError::Classification(error),
        ) && *final(tracer) == *old(tracer),
        classified matches Ok(event) ==> exists|outcome: Result<(), pyo3::PyErr>|
            r == observed(outcome) && #[trigger] P::observes(
                *old(tracer),
                event,
                *final(tracer),
                outcome,
            ),
{
    match classified {
        Err(error) => Err(DispatchError::Classification(error)),
        Ok(event) => match tracer.trace(frame, event, py) {
            Ok(_) => Ok(()),
            Err(error) => Err(DispatchError::Observer(error)),
        },
    }
}

/// Classifies one notification of the interpreter and hands it to `tracer`.
pub fn dispatch<'py, E: Event, P: Tracer<E>>(
    tracer: &mut P,
    frame: pyo3::Py<pyo3::PyAny>,
    what: i32,
    arg: Option<pyo3::Bound<'py, pyo3::PyAny>>,
    py: pyo3::Python<'py>,
) -> (r: Result<(), DispatchError>)
    ensures
        r matches Err(DispatchError::Classification(error)) ==> *final(tracer) == *old(tracer)
            && exists|payload: Option<Payload>|
            payload_read_from(what, arg is Some, payload) && #[trigger] E::classified(what, payload)
                == Err::<E, ClassificationError>(error),
        (forall|payload: Option<Payload>|
            payload_read_from(what, arg is Some, payload) ==> (#[trigger] E::classified(
                what,
                payload,
            )) is Err) ==> r matches Err(DispatchError::Classification(_)),
        !(r matches Err(DispatchError::Classification(_))) ==> exists|
            payload: Option<Payload>,
            event: E,
            outcome: Result<(), pyo3::PyErr>,
        |
            #![trigger E::classified(what, payload), P::observes(*old(tracer), event, *final(tracer), outcome)]
            payload_read_from(what, arg is Some, payload) && E::classified(what, payload) == Ok::<
                E,
                ClassificationError,
            >(event) && r == observed(outcome) && P::observes(
                *old(tracer),
                event,
                *final(tracer),
                outcome,
            ),
{
    let classified = E::from_raw(what, arg);
    deliver(tracer, frame, classified, py)
}

} // verus!
