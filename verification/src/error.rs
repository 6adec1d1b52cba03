//! What can end a run early.
use vstd::prelude::*;
use crate::status;

verus! {

/// An error that ends the run.
///
/// The two variants that stand for a failure of the outside world carry the
/// cause as the text in which the outside world put it.
#[derive(Debug, PartialEq, Eq)]
pub enum Error {
    /// `interactive` and `suppress` were both asked for.
    Conflict,
    /// A stream or the file system failed.
    Io(String),
    /// The command line could not be understood.
    Clap(String),
}

/// The mathematical value of an [`Error`].
pub ghost enum ErrorView {
    Conflict,
    Io(Seq<char>),
    Clap(Seq<char>),
}

/// What is said of conflicting options.
pub const CONFLICT: &'static str = "Conflicting options.";

impl ErrorView {
    /// The text that describes the error.
    pub open spec fn message(self) -> Seq<char> {
        match self {
            ErrorView::Conflict => CONFLICT@,
            ErrorView::Io(cause) => cause,
            ErrorView::Clap(cause) => cause,
        }
    }
}

impl View for Error {
    type V = ErrorView;

    open spec fn view(&self) -> ErrorView {
        match self {
            Error::Conflict => ErrorView::Conflict,
            Error::Io(cause) => ErrorView::Io(cause@),
            Error::Clap(cause) => ErrorView::Clap(cause@),
        }
    }
}

impl Clone for Error {
    fn clone(&self) -> (copy: Self)
        ensures
            copy@ == self@,
    {
        match self {
            Error::Conflict => Error::Conflict,
            Error::Io(cause) => Error::Io(cause.clone()),
            Error::Clap(cause) => Error::Clap(cause.clone()),
        }
    }
}

impl Error {
    /// The text that describes the error, as it is shown to the user.
    pub fn message(&self) -> (text: String)
        ensures
            text@ == self@.message(),
    {
        match self {
            Error::Conflict => String::from_str(CONFLICT),
            Error::Io(cause) => cause.clone(),
            Error::Clap(cause) => cause.clone(),
        }
    }
}

/// The mathematical value of the outcome of a run.
pub open spec fn outcome_view(outcome: Result<(), Error>) -> Result<(), ErrorView> {
    match outcome {
        Ok(()) => Ok(()),
        Err(error) => Err(error@),
    }
}

/// The exit code for the outcome of a run: success for `Ok`, and the code of
/// a usage error for every error.
pub open spec fn exit_code_of(outcome: Result<(), ErrorView>) -> i32 {
    if outcome is Ok {
        status::ESUCCESS
    } else {
        status::EUSAGE
    }
}

/// The code with which the process ends after a run with this outcome.
pub fn exit_code(outcome: &Result<(), Error>) -> (code: i32)
    ensures
        code == exit_code_of(outcome_view(*outcome)),
{
    match outcome {
        Ok(_) => status::ESUCCESS,
        Err(_) => status::EUSAGE,
    }
}

} // verus!
