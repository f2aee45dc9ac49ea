//! Failures told in words.

use vstd::prelude::*;
use vstd::string::{to_string_from_display_ensures, StringExecFns};

verus! {

/// `cause` with the description `msg` of what failed put before it:
/// `<msg>: <cause>`.
pub open spec fn with_context(msg: Seq<char>, cause: Seq<char>) -> Seq<char> {
    msg + ": "@ + cause
}

/// Turns the error of a result into words, for callers who do not tell one
/// error from another.
pub trait StringifyError<T> {
    /// What `self` holds on success.
    spec fn value(self) -> Option<T>;

    /// Whether `text` is the error of `self` as it displays itself.
    spec fn displays_as(self, text: String) -> bool;

    /// Tells the error in the words in which it displays itself.
    fn stringify(self) -> (r: Result<T, String>)
        ensures
            match r {
                Ok(value) => self.value() == Some(value),
                Err(text) => self.value() is None && self.displays_as(text),
            },
    ;

    /// Tells the error in words, with a description of what failed put
    /// before it.
    fn context(self, msg: &str) -> (r: Result<T, String>)
        ensures
            match r {
                Ok(value) => self.value() == Some(value),
                Err(text) => self.value() is None && exists|cause: String|
                    #[trigger] self.displays_as(cause) && text@ == with_context(msg@, cause@),
            },
    ;
}

impl<T, E: std::fmt::Display> StringifyError<T> for Result<T, E> {
    open spec fn value(self) -> Option<T> {
        match self {
            Ok(value) => Some(value),
            Err(_) => None,
        }
    }

    open spec fn displays_as(self, text: String) -> bool {
        self matches Err(e) && to_string_from_display_ensures::<E>(&e, text)
    }

    fn stringify(self) -> (r: Result<T, String>) {
        match self {
            Ok(value) => Ok(value),
            Err(e) => Err(e.to_string()),
        }
    }

    fn context(self, msg: &str) -> (r: Result<T, String>) {
        match self {
            Ok(value) => Ok(value),
            Err(e) => {
                let cause = e.to_string();
                let mut text = msg.to_owned();
                text.append(": ");
                text.append(cause.as_str());
                assert(self.displays_as(cause));
                Err(text)
            },
        }
    }
}

} // verus!
