//! The errors that the runtime reports to the host, and the exception that
//! the host catches for a JavaScript error.

use crate::text::{decimal, decimal_string};
use vstd::prelude::*;
use vstd::string::*;

verus! {

/// One stack frame of a JavaScript error, as the engine reports it.
#[derive(Clone, Debug, PartialEq, Eq)]
pub struct StackFrame {
    pub file_name: Option<String>,
    pub line_number: Option<i64>,
}

/// A JavaScript error with its frames, the outermost first, as the engine
/// reports it.
#[derive(Clone, Debug, PartialEq, Eq)]
pub struct JsError {
    pub message: Option<String>,
    pub frames: Vec<StackFrame>,
}

/// The exception that the host catches when JavaScript threw.
#[derive(Clone, Debug, PartialEq, Eq)]
pub struct JsException {
    pub message: String,
    pub code: i32,
    pub file: String,
    pub line: i64,
    pub trace: Vec<String>,
}

/// The model of a `JsException`.
pub struct ExceptionModel {
    pub message: Seq<char>,
    pub code: int,
    pub file: Seq<char>,
    pub line: int,
    pub trace: Seq<Seq<char>>,
}

impl View for JsException {
    type V = ExceptionModel;

    open spec fn view(&self) -> ExceptionModel {
        ExceptionModel {
            message: self.message@,
            code: self.code as int,
            file: self.file@,
            line: self.line as int,
            trace: Seq::new(self.trace.len() as nat, |i: int| self.trace[i]@),
        }
    }
}

impl StackFrame {
    /// The file of the frame, `unknown` where the engine gave none.
    pub open spec fn file(self) -> Seq<char> {
        match self.file_name {
            Some(name) => name@,
            None => "unknown"@,
        }
    }

    /// The line of the frame, 0 where the engine gave none.
    pub open spec fn line(self) -> int {
        match self.line_number {
            Some(line) => line as int,
            None => 0,
        }
    }

    /// The entry of the frame in a trace: its file, a colon, its line.
    pub open spec fn trace_entry(self) -> Seq<char> {
        self.file() + seq![':'] + decimal(self.line())
    }

    /// The file of the frame, `unknown` where the engine gave none.
    pub fn file_or_unknown(&self) -> (file: String)
        ensures
            file@ == self.file(),
    {
        match &self.file_name {
            Some(name) => name.clone(),
            None => "unknown".to_owned(),
        }
    }

    /// The line of the frame, 0 where the engine gave none.
    pub fn line_or_zero(&self) -> (line: i64)
        ensures
            line == self.line(),
    {
        match self.line_number {
            Some(line) => line,
            None => 0,
        }
    }

    /// The entry of the frame in a trace.
    pub fn to_trace_entry(&self) -> (entry: String)
        ensures
            entry@ == self.trace_entry(),
    {
        let mut entry = self.file_or_unknown();
        proof {
            reveal_strlit(":");
        }
        entry.append(":");
        let line = decimal_string(self.line_or_zero());
        entry.append(line.as_str());
        assert(entry@ =~= self.trace_entry());
        entry
    }
}

impl JsError {
    /// The exception that stands for this error.
    pub open spec fn exception(self) -> ExceptionModel {
        ExceptionModel {
            message: match self.message {
                Some(message) => message@,
                None => "Unknown JavaScript error."@,
            },
            code: 0,
            file: if self.frames.len() > 0 {
                self.frames[0].file()
            } else {
                "unknown"@
            },
            line: if self.frames.len() > 0 {
                self.frames[0].line()
            } else {
                0
            },
            trace: Seq::new(self.frames.len() as nat, |i: int| self.frames[i].trace_entry()),
        }
    }
}

impl JsException {
    /// The exception as the host makes it before anything is known of the
    /// error.
    pub fn new() -> (e: JsException)
        ensures
            e@.message == "JSError happened"@,
            e@.code == 0,
            e@.file == ""@,
            e@.line == 0,
            e@.trace == Seq::<Seq<char>>::empty(),
    {
        let e = JsException {
            message: "JSError happened".to_owned(),
            code: 0,
            file: "".to_owned(),
            line: 0,
            trace: Vec::new(),
        };
        assert(e@.trace =~= Seq::<Seq<char>>::empty());
        e
    }

    /// The exception for a JavaScript error. Frame 0 gives the file and the line;
    /// the trace holds one entry for each frame, in the engine's order; the
    /// code is 0.
    pub fn from(error: JsError) -> (e: JsException)
        ensures
            e@ == error.exception(),
    {
        let message = match &error.message {
            Some(message) => message.clone(),
            None => "Unknown JavaScript error.".to_owned(),
        };
        let file = if error.frames.len() > 0 {
            error.frames[0].file_or_unknown()
        } else {
            "unknown".to_owned()
        };
        let line = if error.frames.len() > 0 {
            error.frames[0].line_or_zero()
        } else {
            0
        };
        let mut trace: Vec<String> = Vec::new();
        let mut i: usize = 0;
        while i < error.frames.len()
            invariant
                i <= error.frames.len(),
                trace.len() == i,
                forall|j: int| 0 <= j < i ==> (#[trigger] trace[j])@ == error.frames[j].trace_entry(),
            decreases error.frames.len() - i,
        {
            trace.push(error.frames[i].to_trace_entry());
            i = i + 1;
        }
        let e = JsException { message, code: 0, file, line, trace };
        assert(e@.trace =~= error.exception().trace);
        e
    }
}

/// What the runtime reports to the host.
#[derive(Clone, Debug, PartialEq, Eq)]
pub enum Error {
    /// The module specifier is no valid URL; the text says why.
    BadSpecifier(String),
    /// The permissions record cannot be normalised.
    BadPermission,
    /// JavaScript threw while a script or a module ran.
    JsError(JsException),
    /// The host's module loader failed or returned invalid data.
    LoaderError(String),
    /// Code was to run after the runtime was snapshotted.
    Snapshotted,
    /// A snapshot was asked of a runtime that was not made for one.
    NoSnapshotFlag,
    /// The source could not be parsed; the text is the diagnostic.
    ParseDiagnostic(String),
    /// JavaScript called an op that the registry does not hold.
    OpLookup(String),
    /// A value nests too deeply to cross the bridge.
    InvalidValue,
    /// A host callable raised; the text is the host's.
    HostRaised(String),
    /// A parsed source could not be transpiled; the text says why.
    Transpile(String),
    /// The engine failed otherwise; the text is its message.
    Engine(String),
}

/// The model of an `Error`.
pub enum ErrorModel {
    BadSpecifier(Seq<char>),
    BadPermission,
    JsError(ExceptionModel),
    LoaderError(Seq<char>),
    Snapshotted,
    NoSnapshotFlag,
    ParseDiagnostic(Seq<char>),
    OpLookup(Seq<char>),
    InvalidValue,
    HostRaised(Seq<char>),
    Transpile(Seq<char>),
    Engine(Seq<char>),
}

impl View for Error {
    type V = ErrorModel;

    open spec fn view(&self) -> ErrorModel {
        match self {
            Error::BadSpecifier(text) => ErrorModel::BadSpecifier(text@),
            Error::BadPermission => ErrorModel::BadPermission,
            Error::JsError(exception) => ErrorModel::JsError(exception@),
            Error::LoaderError(text) => ErrorModel::LoaderError(text@),
            Error::Snapshotted => ErrorModel::Snapshotted,
            Error::NoSnapshotFlag => ErrorModel::NoSnapshotFlag,
            Error::ParseDiagnostic(text) => ErrorModel::ParseDiagnostic(text@),
            Error::OpLookup(name) => ErrorModel::OpLookup(name@),
            Error::InvalidValue => ErrorModel::InvalidValue,
            Error::HostRaised(text) => ErrorModel::HostRaised(text@),
            Error::Transpile(text) => ErrorModel::Transpile(text@),
            Error::Engine(text) => ErrorModel::Engine(text@),
        }
    }
}

impl ErrorModel {
    /// The message that the host reads.
    pub open spec fn message(self) -> Seq<char> {
        match self {
            ErrorModel::BadSpecifier(text) => text,
            ErrorModel::BadPermission => "Unable to parse permissions."@,
            ErrorModel::JsError(exception) => exception.message,
            ErrorModel::LoaderError(text) => text,
            ErrorModel::Snapshotted =>
                "Scripts can not be executed after JsRuntime has been snapshotted."@,
            ErrorModel::NoSnapshotFlag =>
                "Unable to snapshot JsRuntime when RuntimeOptions.will_snapshot is not true."@,
            ErrorModel::ParseDiagnostic(text) => text,
            ErrorModel::OpLookup(name) => "No op is registered under the name "@ + name,
            ErrorModel::InvalidValue => "The value nests too deeply."@,
            ErrorModel::HostRaised(text) => text,
            ErrorModel::Transpile(text) => text,
            ErrorModel::Engine(text) => text,
        }
    }
}

impl Error {
    /// The message that the host reads.
    pub fn message(&self) -> (text: String)
        ensures
            text@ == self@.message(),
    {
        match self {
            Error::BadSpecifier(text) => text.clone(),
            Error::BadPermission => "Unable to parse permissions.".to_owned(),
            Error::JsError(exception) => exception.message.clone(),
            Error::LoaderError(text) => text.clone(),
            Error::Snapshotted => {
                "Scripts can not be executed after JsRuntime has been snapshotted.".to_owned()
            },
            Error::NoSnapshotFlag => {
                "Unable to snapshot JsRuntime when RuntimeOptions.will_snapshot is not true.".to_owned()
            },
            Error::ParseDiagnostic(text) => text.clone(),
            Error::OpLookup(name) => {
                let mut text = "No op is registered under the name ".to_owned();
                text.append(name.as_str());
                text
            },
            Error::InvalidValue => "The value nests too deeply.".to_owned(),
            Error::HostRaised(text) => text.clone(),
            Error::Transpile(text) => text.clone(),
            Error::Engine(text) => text.clone(),
        }
    }
}

} // verus!
