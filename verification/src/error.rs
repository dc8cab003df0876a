//! Errors of the widget tree.
use vstd::prelude::*;

use std::path::PathBuf;

verus! {

/// `std::path::PathBuf`, carried through opaque.
#[verifier::external_type_specification]
#[verifier::external_body]
pub struct ExPathBuf(PathBuf);

/// What went wrong.
#[derive(Debug)]
pub enum ErrorKind {
    /// A template names an element that does not exist.
    InvalidElement(String),
    /// Inserting into the widget tree failed (most likely the parent was removed).
    TreeTransactionFailed,
    /// A component was used more than once.
    ComponentConsumed(String),
}

/// An error, with the path of the template it came from when there is one.
#[derive(Debug)]
pub struct Error {
    pub kind: ErrorKind,
    pub path: Option<PathBuf>,
}

/// The message of an error kind.
pub open spec fn kind_message(kind: ErrorKind) -> Seq<char> {
    match kind {
        ErrorKind::InvalidElement(el) => "element `"@ + el@ + "` does not exist"@,
        ErrorKind::TreeTransactionFailed => "failed to insert into the widget tree (most likely the parent was removed)"@,
        ErrorKind::ComponentConsumed(name) => "`@"@ + name@ + "` has already been used"@,
    }
}

impl ErrorKind {
    /// The message of the error.
    pub fn message(&self) -> (r: String)
        ensures
            r@ == kind_message(*self),
    {
        match self {
            ErrorKind::InvalidElement(el) => {
                let mut s = String::from_str("element `");
                s.append(el.as_str());
                s.append("` does not exist");
                s
            },
            ErrorKind::TreeTransactionFailed => String::from_str(
                "failed to insert into the widget tree (most likely the parent was removed)",
            ),
            ErrorKind::ComponentConsumed(name) => {
                let mut s = String::from_str("`@");
                s.append(name.as_str());
                s.append("` has already been used");
                s
            },
        }
    }
}

impl Error {
    /// Inserting into the widget tree failed; there is no path.
    pub fn transaction_failed() -> (r: Self)
        ensures
            r.kind is TreeTransactionFailed,
            r.path is None,
    {
        Self { kind: ErrorKind::TreeTransactionFailed, path: None }
    }

    /// The message of the error: that of its kind.
    pub fn message(&self) -> (r: String)
        ensures
            r@ == kind_message(self.kind),
    {
        self.kind.message()
    }
}

} // verus!
