//! The error taxonomy shared by every component.

use vstd::prelude::*;

verus! {

/// The class of a failure. Validation, limit and not-found errors are the
/// caller's mistakes; the others are failures on this side.
#[derive(Debug, Clone, Copy, PartialEq, Eq, Structural)]
pub enum ErrorKind {
    /// The payload missed a required field or broke an invariant.
    Validation,
    /// The input went over a guard rail such as a maximum length or count.
    LimitExceeded,
    /// The requested entity does not exist.
    NotFound,
    /// The storage engine, or the transport to it, failed.
    Storage,
    /// The embedding model or its dimensions do not fit.
    Embedding,
    /// Anything else.
    Other,
}

/// Domain-level error: a class and a message for diagnostics.
#[derive(Debug)]
pub enum DomainError {
    Validation(String),
    LimitExceeded(String),
    NotFound(String),
    Storage(String),
    Embedding(String),
    Other(String),
}

/// Mathematical model of a [`DomainError`].
pub struct ErrorView {
    pub kind: ErrorKind,
    pub message: Seq<char>,
}

impl View for DomainError {
    type V = ErrorView;

    open spec fn view(&self) -> ErrorView {
        match self {
            DomainError::Validation(m) => ErrorView { kind: ErrorKind::Validation, message: m@ },
            DomainError::LimitExceeded(m) => ErrorView {
                kind: ErrorKind::LimitExceeded,
                message: m@,
            },
            DomainError::NotFound(m) => ErrorView { kind: ErrorKind::NotFound, message: m@ },
            DomainError::Storage(m) => ErrorView { kind: ErrorKind::Storage, message: m@ },
            DomainError::Embedding(m) => ErrorView { kind: ErrorKind::Embedding, message: m@ },
            DomainError::Other(m) => ErrorView { kind: ErrorKind::Other, message: m@ },
        }
    }
}

/// The model of an error of the given class and message.
pub open spec fn error_of(kind: ErrorKind, message: Seq<char>) -> ErrorView {
    ErrorView { kind, message }
}

/// The words that introduce the message of each class when an error is
/// rendered.
pub open spec fn kind_prefix(kind: ErrorKind) -> Seq<char> {
    match kind {
        ErrorKind::Validation => "validation error: "@,
        ErrorKind::LimitExceeded => "limit exceeded: "@,
        ErrorKind::NotFound => "not found: "@,
        ErrorKind::Storage => "storage failure: "@,
        ErrorKind::Embedding => "embedding mismatch: "@,
        ErrorKind::Other => "unexpected error: "@,
    }
}

/// The rendered form of an error: the prefix of its class, then its message.
pub open spec fn rendered(e: ErrorView) -> Seq<char> {
    kind_prefix(e.kind) + e.message
}

/// Caller mistakes are reported as such; the other classes are failures of
/// the service.
pub open spec fn is_caller_mistake(kind: ErrorKind) -> bool {
    kind == ErrorKind::Validation || kind == ErrorKind::LimitExceeded || kind
        == ErrorKind::NotFound
}

impl DomainError {
    /// A validation error with the given message.
    pub fn validation(msg: &str) -> (e: Self)
        ensures
            e@ == error_of(ErrorKind::Validation, msg@),
    {
        DomainError::Validation(msg.to_owned())
    }

    /// A limit error with the given message.
    pub fn limit(msg: &str) -> (e: Self)
        ensures
            e@ == error_of(ErrorKind::LimitExceeded, msg@),
    {
        DomainError::LimitExceeded(msg.to_owned())
    }

    /// A not-found error with the given message.
    pub fn not_found(msg: &str) -> (e: Self)
        ensures
            e@ == error_of(ErrorKind::NotFound, msg@),
    {
        DomainError::NotFound(msg.to_owned())
    }

    /// A storage error with the given message.
    pub fn storage(msg: &str) -> (e: Self)
        ensures
            e@ == error_of(ErrorKind::Storage, msg@),
    {
        DomainError::Storage(msg.to_owned())
    }

    /// An embedding error with the given message.
    pub fn embedding(msg: &str) -> (e: Self)
        ensures
            e@ == error_of(ErrorKind::Embedding, msg@),
    {
        DomainError::Embedding(msg.to_owned())
    }

    /// An unclassified error with the given message.
    pub fn other(msg: &str) -> (e: Self)
        ensures
            e@ == error_of(ErrorKind::Other, msg@),
    {
        DomainError::Other(msg.to_owned())
    }

    /// The class of this error.
    pub fn kind(&self) -> (k: ErrorKind)
        ensures
            k == self@.kind,
    {
        match self {
            DomainError::Validation(_) => ErrorKind::Validation,
            DomainError::LimitExceeded(_) => ErrorKind::LimitExceeded,
            DomainError::NotFound(_) => ErrorKind::NotFound,
            DomainError::Storage(_) => ErrorKind::Storage,
            DomainError::Embedding(_) => ErrorKind::Embedding,
            DomainError::Other(_) => ErrorKind::Other,
        }
    }

    /// The message of this error, without the prefix of its class.
    pub fn message(&self) -> (m: &str)
        ensures
            m@ == self@.message,
    {
        match self {
            DomainError::Validation(m) => m.as_str(),
            DomainError::LimitExceeded(m) => m.as_str(),
            DomainError::NotFound(m) => m.as_str(),
            DomainError::Storage(m) => m.as_str(),
            DomainError::Embedding(m) => m.as_str(),
            DomainError::Other(m) => m.as_str(),
        }
    }

    /// Renders the error for display: the prefix of its class, then the
    /// message.
    pub fn to_string(&self) -> (out: String)
        ensures
            out@ == rendered(self@),
    {
        let prefix: &str = match self {
            DomainError::Validation(_) => "validation error: ",
            DomainError::LimitExceeded(_) => "limit exceeded: ",
            DomainError::NotFound(_) => "not found: ",
            DomainError::Storage(_) => "storage failure: ",
            DomainError::Embedding(_) => "embedding mismatch: ",
            DomainError::Other(_) => "unexpected error: ",
        };
        crate::text::join(prefix, self.message())
    }

    /// Copies the error.
    pub fn duplicate(&self) -> (out: Self)
        ensures
            out@ == self@,
    {
        match self {
            DomainError::Validation(m) => DomainError::Validation(m.clone()),
            DomainError::LimitExceeded(m) => DomainError::LimitExceeded(m.clone()),
            DomainError::NotFound(m) => DomainError::NotFound(m.clone()),
            DomainError::Storage(m) => DomainError::Storage(m.clone()),
            DomainError::Embedding(m) => DomainError::Embedding(m.clone()),
            DomainError::Other(m) => DomainError::Other(m.clone()),
        }
    }
}

} // verus!
