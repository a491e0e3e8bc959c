//! The reasons for which the poller stops before it polls.

use vstd::prelude::*;
use vstd::string::StringExecFns;

verus! {

/// What is said where the directory is not found.
pub const DIRECTORY_NOT_FOUND: &'static str = "No se encontró el directorio";

/// What is said before the name of a file that is not found.
pub const FILE_NOT_FOUND_BEFORE: &'static str = "El archivo ";

/// What is said after the name of a file that is not found.
pub const FILE_NOT_FOUND_AFTER: &'static str = " no existe en el directorio actual";

/// What is said where the file cannot be read.
pub const UNREADABLE: &'static str = "No se pudo leer el archivo";

/// What is said where the configuration has no delay.
pub const MISSING_DELAY: &'static str = "No se especificó un delay";

/// What is said where the configuration has no addresses.
pub const MISSING_TARGETS: &'static str = "No se especificaron urls";

/// Why startup failed. Each of these ends the run before any request is made.
#[derive(Debug, PartialEq, Eq)]
pub enum StartupError {
    /// The documents directory cannot be listed, or it has no directory of
    /// the wanted name.
    DirectoryNotFound,
    /// The directory has no entry of the wanted name.
    FileNotFound { file_name: String },
    /// The file is there and cannot be read.
    Unreadable,
    /// The file is no JSON object of lists of strings; `message` is the
    /// parser's own.
    Malformed { message: String },
    /// The configuration has no `delay` key.
    MissingDelay,
    /// The configuration has no `robotsUrls` key.
    MissingTargets,
}

/// The mathematical value of a [`StartupError`].
pub enum StartupErrorView {
    DirectoryNotFound,
    FileNotFound { file_name: Seq<char> },
    Unreadable,
    Malformed { message: Seq<char> },
    MissingDelay,
    MissingTargets,
}

impl View for StartupError {
    type V = StartupErrorView;

    open spec fn view(&self) -> StartupErrorView {
        match self {
            StartupError::DirectoryNotFound => StartupErrorView::DirectoryNotFound,
            StartupError::FileNotFound { file_name } => StartupErrorView::FileNotFound {
                file_name: file_name@,
            },
            StartupError::Unreadable => StartupErrorView::Unreadable,
            StartupError::Malformed { message } => StartupErrorView::Malformed {
                message: message@,
            },
            StartupError::MissingDelay => StartupErrorView::MissingDelay,
            StartupError::MissingTargets => StartupErrorView::MissingTargets,
        }
    }
}

impl StartupErrorView {
    /// The error in words.
    pub open spec fn message(self) -> Seq<char> {
        match self {
            StartupErrorView::DirectoryNotFound => DIRECTORY_NOT_FOUND@,
            StartupErrorView::FileNotFound { file_name } => FILE_NOT_FOUND_BEFORE@ + file_name
                + FILE_NOT_FOUND_AFTER@,
            StartupErrorView::Unreadable => UNREADABLE@,
            StartupErrorView::Malformed { message } => message,
            StartupErrorView::MissingDelay => MISSING_DELAY@,
            StartupErrorView::MissingTargets => MISSING_TARGETS@,
        }
    }
}

impl StartupError {
    /// The error in words.
    pub fn message(&self) -> (r: String)
        ensures
            r@ == self@.message(),
    {
        match self {
            StartupError::DirectoryNotFound => DIRECTORY_NOT_FOUND.to_owned(),
            StartupError::FileNotFound { file_name } => {
                let mut text = FILE_NOT_FOUND_BEFORE.to_owned();
                text.append(file_name.as_str());
                text.append(FILE_NOT_FOUND_AFTER);
                text
            },
            StartupError::Unreadable => UNREADABLE.to_owned(),
            StartupError::Malformed { message } => message.clone(),
            StartupError::MissingDelay => MISSING_DELAY.to_owned(),
            StartupError::MissingTargets => MISSING_TARGETS.to_owned(),
        }
    }
}

} // verus!
