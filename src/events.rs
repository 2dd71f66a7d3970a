//! Events that a running worker emits, component kinds, and the error of a
//! request that does not fit a routing expression's inputs.
use vstd::prelude::*;
use vstd::string::*;
use crate::idempotency::IdempotencyKey;
use crate::status::Timestamp;
use crate::text::{chars_eq_str, chars_of};
use vstd::utf8::{decode_utf8, valid_utf8};

verus! {

#[derive(Clone, Copy, Debug, PartialEq, Eq, Hash, Structural)]
pub enum LogLevel {
    Trace,
    Debug,
    Info,
    Warn,
    Error,
    Critical,
}

/// Something a worker emitted, stamped with the time it happened.
#[derive(Debug, Clone, PartialEq, Eq, Hash)]
pub enum WorkerEvent {
    StdOut { timestamp: Timestamp, bytes: Vec<u8> },
    StdErr { timestamp: Timestamp, bytes: Vec<u8> },
    Log { timestamp: Timestamp, level: LogLevel, context: String, message: String },
    InvocationStart { timestamp: Timestamp, function: String, idempotency_key: IdempotencyKey },
    InvocationFinished { timestamp: Timestamp, function: String, idempotency_key: IdempotencyKey },
    Close,
}

impl WorkerEvent {
    /// Output written to the standard output, now.
    pub fn stdout(bytes: Vec<u8>) -> (r: WorkerEvent)
        ensures
            r is StdOut && r->StdOut_bytes == bytes && r->StdOut_timestamp.millis >= 0,
    {
        WorkerEvent::StdOut { timestamp: Timestamp::now_utc(), bytes }
    }

    /// Output written to the standard error, now.
    pub fn stderr(bytes: Vec<u8>) -> (r: WorkerEvent)
        ensures
            r is StdErr && r->StdErr_bytes == bytes && r->StdErr_timestamp.millis >= 0,
    {
        WorkerEvent::StdErr { timestamp: Timestamp::now_utc(), bytes }
    }

    /// A log message, now.
    pub fn log(level: LogLevel, context: &str, message: &str) -> (r: WorkerEvent)
        ensures
            r is Log && r->Log_level == level && r->Log_context@ == context@ && r->Log_message@
                == message@ && r->Log_timestamp.millis >= 0,
    {
        WorkerEvent::Log {
            timestamp: Timestamp::now_utc(),
            level,
            context: String::from_str(context),
            message: String::from_str(message),
        }
    }

    /// An invocation of `function` started now.
    pub fn invocation_start(function: &str, idempotency_key: &IdempotencyKey) -> (r: WorkerEvent)
        ensures
            r is InvocationStart && r->InvocationStart_function@ == function@
                && r->InvocationStart_idempotency_key == *idempotency_key
                && r->InvocationStart_timestamp.millis >= 0,
    {
        WorkerEvent::InvocationStart {
            timestamp: Timestamp::now_utc(),
            function: String::from_str(function),
            idempotency_key: idempotency_key.clone(),
        }
    }

    /// An invocation of `function` finished now.
    pub fn invocation_finished(function: &str, idempotency_key: &IdempotencyKey) -> (r:
        WorkerEvent)
        ensures
            r is InvocationFinished && r->InvocationFinished_function@ == function@
                && r->InvocationFinished_idempotency_key == *idempotency_key
                && r->InvocationFinished_timestamp.millis >= 0,
    {
        WorkerEvent::InvocationFinished {
            timestamp: Timestamp::now_utc(),
            function: String::from_str(function),
            idempotency_key: idempotency_key.clone(),
        }
    }
}

pub open spec fn level_name(l: LogLevel) -> Seq<char> {
    match l {
        LogLevel::Trace => "Trace"@,
        LogLevel::Debug => "Debug"@,
        LogLevel::Info => "Info"@,
        LogLevel::Warn => "Warn"@,
        LogLevel::Error => "Error"@,
        LogLevel::Critical => "Critical"@,
    }
}

impl LogLevel {
    pub fn to_string(&self) -> (r: String)
        ensures
            r@ == level_name(*self),
    {
        match self {
            LogLevel::Trace => String::from_str("Trace"),
            LogLevel::Debug => String::from_str("Debug"),
            LogLevel::Info => String::from_str("Info"),
            LogLevel::Warn => String::from_str("Warn"),
            LogLevel::Error => String::from_str("Error"),
            LogLevel::Critical => String::from_str("Critical"),
        }
    }
}

/// Relies on `std::str::from_utf8`: the text that the bytes encode, if they
/// are valid UTF-8.
#[verifier::external_body]
fn utf8_text(bytes: &[u8]) -> (r: Option<String>)
    ensures
        match r {
            Some(t) => valid_utf8(bytes@) && t@ == decode_utf8(bytes@),
            None => !valid_utf8(bytes@),
        },
{
    match std::str::from_utf8(bytes) {
        Ok(t) => Some(t.to_string()),
        Err(_) => None,
    }
}

/// The text that output bytes show: their UTF-8 text, or nothing when they
/// are not valid UTF-8.
pub open spec fn output_text(bytes: Seq<u8>) -> Seq<char> {
    if valid_utf8(bytes) {
        decode_utf8(bytes)
    } else {
        Seq::empty()
    }
}

/// The text of an event.
pub open spec fn event_text(e: WorkerEvent) -> Seq<char> {
    match e {
        WorkerEvent::StdOut { bytes, .. } => "<stdout> "@ + output_text(bytes@),
        WorkerEvent::StdErr { bytes, .. } => "<stderr> "@ + output_text(bytes@),
        WorkerEvent::Log { level, context, message, .. } => "<log> "@ + level_name(level) + " "@
            + context@ + " "@ + message@,
        WorkerEvent::InvocationStart { function, idempotency_key, .. } => "<invocation-start> "@
            + function@ + " "@ + idempotency_key.value@,
        WorkerEvent::InvocationFinished { function, idempotency_key, .. } =>
            "<invocation-finished> "@ + function@ + " "@ + idempotency_key.value@,
        WorkerEvent::Close => "<close>"@,
    }
}

fn push_output(s: &mut String, bytes: &Vec<u8>)
    ensures
        final(s)@ == old(s)@ + output_text(bytes@),
{
    match utf8_text(bytes.as_slice()) {
        Some(t) => s.append(t.as_str()),
        None => {
            assert(old(s)@ + output_text(bytes@) == old(s)@);
        },
    }
}

impl WorkerEvent {
    pub fn to_string(&self) -> (r: String)
        ensures
            r@ == event_text(*self),
    {
        match self {
            WorkerEvent::StdOut { bytes, .. } => {
                let mut s = String::from_str("<stdout> ");
                push_output(&mut s, bytes);
                s
            },
            WorkerEvent::StdErr { bytes, .. } => {
                let mut s = String::from_str("<stderr> ");
                push_output(&mut s, bytes);
                s
            },
            WorkerEvent::Log { level, context, message, .. } => {
                let mut s = String::from_str("<log> ");
                let l = level.to_string();
                s.append(l.as_str());
                s.append(" ");
                s.append(context.as_str());
                s.append(" ");
                s.append(message.as_str());
                s
            },
            WorkerEvent::InvocationStart { function, idempotency_key, .. } => {
                let mut s = String::from_str("<invocation-start> ");
                s.append(function.as_str());
                s.append(" ");
                s.append(idempotency_key.value.as_str());
                s
            },
            WorkerEvent::InvocationFinished { function, idempotency_key, .. } => {
                let mut s = String::from_str("<invocation-finished> ");
                s.append(function.as_str());
                s.append(" ");
                s.append(idempotency_key.value.as_str());
                s
            },
            WorkerEvent::Close => String::from_str("<close>"),
        }
    }
}

/// Whether a component's workers keep a durable log.
#[derive(Clone, Copy, Debug, PartialEq, Eq, Hash, Structural)]
pub enum ComponentType {
    Durable,
    Ephemeral,
}

/// The component type that a word names, in exactly that letter case.
pub open spec fn component_type_word(s: Seq<char>) -> Option<ComponentType> {
    if s == "Durable"@ {
        Some(ComponentType::Durable)
    } else if s == "Ephemeral"@ {
        Some(ComponentType::Ephemeral)
    } else {
        None
    }
}

impl ComponentType {
    pub fn to_i32(&self) -> (r: i32)
        ensures
            r == match self {
                ComponentType::Durable => 0int,
                ComponentType::Ephemeral => 1int,
            },
    {
        match self {
            ComponentType::Durable => 0,
            ComponentType::Ephemeral => 1,
        }
    }

    pub fn try_from_i32(value: i32) -> (r: Result<ComponentType, String>)
        ensures
            value == 0 ==> r == Ok::<ComponentType, String>(ComponentType::Durable),
            value == 1 ==> r == Ok::<ComponentType, String>(ComponentType::Ephemeral),
            value != 0 && value != 1 ==> r is Err,
    {
        match value {
            0 => Ok(ComponentType::Durable),
            1 => Ok(ComponentType::Ephemeral),
            _ => Err(String::from_str("Unknown Component Type")),
        }
    }

    /// Reads `Durable` or `Ephemeral`, in exactly that letter case.
    pub fn parse(s: &str) -> (r: Result<ComponentType, String>)
        ensures
            match component_type_word(s@) {
                Some(c) => r == Ok::<ComponentType, String>(c),
                None => r is Err,
            },
    {
        let cs = chars_of(s);
        if chars_eq_str(&cs, "Durable") {
            Ok(ComponentType::Durable)
        } else if chars_eq_str(&cs, "Ephemeral") {
            Ok(ComponentType::Ephemeral)
        } else {
            let mut e = String::from_str("Unknown Component Type: ");
            e.append(s);
            Err(e)
        }
    }

    pub fn to_string(&self) -> (r: String)
        ensures
            r@ == match self {
                ComponentType::Durable => "Durable"@,
                ComponentType::Ephemeral => "Ephemeral"@,
            },
    {
        match self {
            ComponentType::Durable => String::from_str("Durable"),
            ComponentType::Ephemeral => String::from_str("Ephemeral"),
        }
    }
}

/// A request's details do not fit the inputs that a routing expression needs.
#[derive(Debug)]
pub struct RibInputTypeMismatch(pub String);

impl RibInputTypeMismatch {
    /// `Rib input type mismatch: <details>`
    pub fn to_string(&self) -> (r: String)
        ensures
            r@ == "Rib input type mismatch: "@ + self.0@,
    {
        let mut s = String::from_str("Rib input type mismatch: ");
        s.append(self.0.as_str());
        s
    }
}

} // verus!
