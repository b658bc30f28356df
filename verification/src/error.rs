use vstd::prelude::*;

verus! {

/// The operating system's I/O error, carried unchanged by [`Error::Io`].
#[verifier::external_type_specification]
#[verifier::external_body]
pub struct ExIoError(std::io::Error);

/// Everything that can go wrong while configuring a client or recording a metric.
#[derive(Debug)]
pub enum Error {
    InvalidName(String),
    InvalidLabel(String),
    InvalidPrefix(String),
    DuplicateMetric(String),
    MethodConflict(String),
    MissingHelp(String),
    UnknownType(String),
    InvalidBatchSize(usize),
    InvalidBatchTimeout(u64),
    SyncModeConflict,
    SpecFileNotFound(String),
    SpecFileInvalidJson(String),
    LabelCountMismatch { expected: usize, got: usize },
    InvalidMethod { method: String, metric_type: String },
    Io(std::io::Error),
}

/// The mathematical content of an [`Error`]: each text payload is seen as its characters.
pub enum ErrorView {
    InvalidName(Seq<char>),
    InvalidLabel(Seq<char>),
    InvalidPrefix(Seq<char>),
    DuplicateMetric(Seq<char>),
    MethodConflict(Seq<char>),
    MissingHelp(Seq<char>),
    UnknownType(Seq<char>),
    InvalidBatchSize(usize),
    InvalidBatchTimeout(u64),
    SyncModeConflict,
    SpecFileNotFound(Seq<char>),
    SpecFileInvalidJson(Seq<char>),
    LabelCountMismatch { expected: usize, got: usize },
    InvalidMethod { method: Seq<char>, metric_type: Seq<char> },
    Io,
}

impl View for Error {
    type V = ErrorView;

    open spec fn view(&self) -> ErrorView {
        match self {
            Error::InvalidName(s) => ErrorView::InvalidName(s@),
            Error::InvalidLabel(s) => ErrorView::InvalidLabel(s@),
            Error::InvalidPrefix(s) => ErrorView::InvalidPrefix(s@),
            Error::DuplicateMetric(s) => ErrorView::DuplicateMetric(s@),
            Error::MethodConflict(s) => ErrorView::MethodConflict(s@),
            Error::MissingHelp(s) => ErrorView::MissingHelp(s@),
            Error::UnknownType(s) => ErrorView::UnknownType(s@),
            Error::InvalidBatchSize(n) => ErrorView::InvalidBatchSize(*n),
            Error::InvalidBatchTimeout(n) => ErrorView::InvalidBatchTimeout(*n),
            Error::SyncModeConflict => ErrorView::SyncModeConflict,
            Error::SpecFileNotFound(s) => ErrorView::SpecFileNotFound(s@),
            Error::SpecFileInvalidJson(s) => ErrorView::SpecFileInvalidJson(s@),
            Error::LabelCountMismatch { expected, got } => ErrorView::LabelCountMismatch {
                expected: *expected,
                got: *got,
            },
            Error::InvalidMethod { method, metric_type } => ErrorView::InvalidMethod {
                method: method@,
                metric_type: metric_type@,
            },
            Error::Io(_) => ErrorView::Io,
        }
    }
}

/// The result type of every fallible operation of this crate.
pub type Result<T> = std::result::Result<T, Error>;

} // verus!
