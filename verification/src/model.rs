//! Value objects of one analysis exchange, with their mathematical models.

use vstd::prelude::*;

verus! {

/// The views of a sequence's elements, in order.
pub open spec fn views_of<T: View>(s: Seq<T>) -> Seq<T::V> {
    Seq::new(s.len(), |i: int| s[i]@)
}

/// One submission's payload: the text to analyse and an optional mode
/// selector (currently always absent).
#[derive(Debug, PartialEq, Eq)]
pub struct AnalysisRequest {
    pub content: String,
    pub mode: Option<String>,
}

/// Mathematical model of an `AnalysisRequest`.
pub struct SpecRequest {
    pub content: Seq<char>,
    pub mode: Option<Seq<char>>,
}

impl View for AnalysisRequest {
    type V = SpecRequest;

    open spec fn view(&self) -> SpecRequest {
        SpecRequest {
            content: self.content@,
            mode: match self.mode {
                Some(m) => Some(m@),
                None => None,
            },
        }
    }
}

/// One detected flag as the backend reported it. The confidence is kept as
/// the number's decimal text from the response body: this layer never
/// interprets it, only displays it.
#[derive(Debug, PartialEq, Eq)]
pub struct FlagMatch {
    pub content: String,
    pub confidence: String,
    pub source: String,
    pub encoding: Option<String>,
}

/// Mathematical model of a `FlagMatch`.
pub struct SpecFlag {
    pub content: Seq<char>,
    pub confidence: Seq<char>,
    pub source: Seq<char>,
    pub encoding: Option<Seq<char>>,
}

impl View for FlagMatch {
    type V = SpecFlag;

    open spec fn view(&self) -> SpecFlag {
        SpecFlag {
            content: self.content@,
            confidence: self.confidence@,
            source: self.source@,
            encoding: match self.encoding {
                Some(e) => Some(e@),
                None => None,
            },
        }
    }
}

/// One log line of the backend's run. Every field is opaque text.
#[derive(Debug, PartialEq, Eq)]
pub struct LogEntry {
    pub timestamp: String,
    pub level: String,
    pub module: String,
    pub action: String,
}

/// Mathematical model of a `LogEntry`.
pub struct SpecLog {
    pub timestamp: Seq<char>,
    pub level: Seq<char>,
    pub module: Seq<char>,
    pub action: Seq<char>,
}

impl View for LogEntry {
    type V = SpecLog;

    open spec fn view(&self) -> SpecLog {
        SpecLog {
            timestamp: self.timestamp@,
            level: self.level@,
            module: self.module@,
            action: self.action@,
        }
    }
}

/// The backend's structured answer: flags and log lines in the order the
/// server sent them, never re-sorted here.
#[derive(Debug, PartialEq, Eq)]
pub struct AnalysisResult {
    pub success: bool,
    pub flags: Vec<FlagMatch>,
    pub logs: Vec<LogEntry>,
}

/// Mathematical model of an `AnalysisResult`.
pub struct SpecResult {
    pub success: bool,
    pub flags: Seq<SpecFlag>,
    pub logs: Seq<SpecLog>,
}

impl View for AnalysisResult {
    type V = SpecResult;

    open spec fn view(&self) -> SpecResult {
        SpecResult {
            success: self.success,
            flags: views_of(self.flags@),
            logs: views_of(self.logs@),
        }
    }
}

/// Every way one submission can fail. All four kinds are terminal for the
/// submission; none is retried.
#[derive(Debug, PartialEq, Eq)]
pub enum AnalysisError {
    /// Connectivity or timeout trouble before any HTTP status arrived.
    Transport(String),
    /// The backend answered with a non-2xx status and this body.
    RemoteRejected(u16, String),
    /// The response body did not hold the expected schema.
    MalformedResponse(String),
    /// The worker vanished without delivering an outcome.
    InternalInterrupted,
}

/// Mathematical model of an `AnalysisError`.
pub enum SpecError {
    Transport(Seq<char>),
    RemoteRejected(u16, Seq<char>),
    MalformedResponse(Seq<char>),
    InternalInterrupted,
}

impl View for AnalysisError {
    type V = SpecError;

    open spec fn view(&self) -> SpecError {
        match self {
            AnalysisError::Transport(m) => SpecError::Transport(m@),
            AnalysisError::RemoteRejected(c, b) => SpecError::RemoteRejected(*c, b@),
            AnalysisError::MalformedResponse(m) => SpecError::MalformedResponse(m@),
            AnalysisError::InternalInterrupted => SpecError::InternalInterrupted,
        }
    }
}

/// The model of a worker's outcome: the delivered result or the error.
pub open spec fn outcome_view(r: Result<AnalysisResult, AnalysisError>) -> Result<
    SpecResult,
    SpecError,
> {
    match r {
        Ok(a) => Ok(a@),
        Err(e) => Err(e@),
    }
}

} // verus!
