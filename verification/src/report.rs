//! Errors carried by command-line reports.
//!
//! A report error pairs a message for the user with the underlying cause,
//! if one is known, and any number of advisory notes appended along the
//! way.

use vstd::prelude::*;

verus! {

use vstd::string::StringExecFns;

/// An error reported to the user: a message, an optional cause, and notes.
#[derive(Debug)]
pub struct Error {
    cause: Option<String>,
    message: String,
    notes: Vec<String>,
}

impl Error {
    /// The message shown first.
    pub closed spec fn message_of(self) -> Seq<char> {
        self.message@
    }

    /// The underlying cause, if one is recorded.
    pub closed spec fn cause_of(self) -> Option<String> {
        self.cause
    }

    /// The advisory notes, oldest first.
    pub closed spec fn notes_of(self) -> Seq<String> {
        self.notes@
    }

    /// An error recording `cause` under the heading `message`.
    fn new(cause: String, message: String) -> (e: Error)
        ensures
            e.cause_of() == Some(cause),
            e.message_of() == message@,
            e.notes_of() == Seq::<String>::empty(),
    {
        Error { cause: Some(cause), message, notes: Vec::new() }
    }

    /// An error with a message alone, no cause.
    pub fn message(message: String) -> (e: Error)
        ensures
            e.cause_of() is None,
            e.message_of() == message@,
            e.notes_of() == Seq::<String>::empty(),
    {
        Error { cause: None, message, notes: Vec::new() }
    }

    /// The message shown first.
    pub fn message_text(&self) -> (t: String)
        ensures
            t@ == self.message_of(),
    {
        self.message.clone()
    }

    /// The underlying cause, if one is recorded.
    pub fn cause(&self) -> (c: &Option<String>)
        ensures
            c == self.cause_of(),
    {
        &self.cause
    }

    /// The advisory notes, oldest first.
    pub fn notes(&self) -> (r: &Vec<String>)
        ensures
            r@ == self.notes_of(),
    {
        &self.notes
    }

    /// Append an advisory note.
    pub fn push_note(&mut self, note: String)
        ensures
            final(self).notes_of() == old(self).notes_of().push(note),
            final(self).message_of() == old(self).message_of(),
            final(self).cause_of() == old(self).cause_of(),
    {
        self.notes.push(note);
    }
}

/// Report-shaping helpers for fallible results.
pub trait ErrorExt<T>: Sized {
    /// Wrap a failure under the heading `message`.
    fn message(self, message: &str) -> Result<T, Error>;

    /// Append an advisory note to a failure.
    fn note(self, note: &str) -> Result<T, Error>;
}

impl<T> ErrorExt<T> for Result<T, String> {
    /// Wrap the cause string under the heading `message`.
    fn message(self, message: &str) -> (r: Result<T, Error>)
        ensures
            self is Ok <==> r is Ok,
            self is Ok ==> r->Ok_0 == self->Ok_0,
            self is Err ==> r->Err_0.cause_of() == Some(self->Err_0) && r->Err_0.message_of()
                == message@ && r->Err_0.notes_of() == Seq::<String>::empty(),
    {
        match self {
            Ok(v) => Ok(v),
            Err(cause) => Err(Error::new(cause, message.to_owned())),
        }
    }

    /// Turn the cause string into an error with one note.
    fn note(self, note: &str) -> (r: Result<T, Error>)
        ensures
            self is Ok <==> r is Ok,
            self is Ok ==> r->Ok_0 == self->Ok_0,
            self is Err ==> r->Err_0.cause_of() == Some(self->Err_0) && r->Err_0.notes_of().len()
                == 1 && r->Err_0.notes_of()[0]@ == note@,
    {
        match self {
            Ok(v) => Ok(v),
            Err(cause) => {
                let mut e = Error::new(cause, String::new());
                e.push_note(note.to_owned());
                Err(e)
            },
        }
    }
}

impl<T> ErrorExt<T> for Result<T, Error> {
    /// Replace the heading, keeping cause and notes.
    fn message(self, message: &str) -> (r: Result<T, Error>)
        ensures
            self is Ok <==> r is Ok,
            self is Ok ==> r->Ok_0 == self->Ok_0,
            self is Err ==> r->Err_0.message_of() == message@ && r->Err_0.cause_of()
                == self->Err_0.cause_of() && r->Err_0.notes_of() == self->Err_0.notes_of(),
    {
        match self {
            Ok(v) => Ok(v),
            Err(e) => {
                let Error { cause, message: _, notes } = e;
                Err(Error { cause, message: message.to_owned(), notes })
            },
        }
    }

    /// Append an advisory note to the failure.
    fn note(self, note: &str) -> (r: Result<T, Error>)
        ensures
            self is Ok <==> r is Ok,
            self is Ok ==> r->Ok_0 == self->Ok_0,
            self is Err ==> r->Err_0.message_of() == self->Err_0.message_of()
                && r->Err_0.cause_of() == self->Err_0.cause_of() && r->Err_0.notes_of().len()
                == self->Err_0.notes_of().len() + 1 && r->Err_0.notes_of().last()@ == note@,
    {
        match self {
            Ok(v) => Ok(v),
            Err(mut e) => {
                e.push_note(note.to_owned());
                Err(e)
            },
        }
    }
}

} // verus!
