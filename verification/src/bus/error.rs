//! The structured error a failed bus call carries: a (name, optional
//! message) pair with explicit ownership of its buffers.
//!
//! `RawError` mirrors the engine's error struct: two optional strings and
//! a flag saying whether the buffers are owned and must be released.
//! Releasing happens exactly once per allocation: `free` empties the
//! value, and a copy always owns buffers of its own, so releasing one
//! value never touches another.

use vstd::prelude::*;

use vstd::pervasive::unreached;

verus! {

/// The ghost state of a raw error: its two optional strings and whether
/// it owns their buffers.
#[verifier::ext_equal]
pub struct RawErrorView {
    pub name: Option<Seq<char>>,
    pub message: Option<Seq<char>>,
    pub need_free: bool,
}

/// An error slot as the engine hands it over: possibly unset, possibly
/// borrowing constant strings (`need_free` false), possibly owning
/// allocated ones (`need_free` true).
#[derive(Debug)]
pub struct RawError {
    name: Option<String>,
    message: Option<String>,
    need_free: bool,
}

/// The view of an optional owned string.
pub open spec fn opt_str_view(o: Option<String>) -> Option<Seq<char>> {
    match o {
        Some(s) => Some(s@),
        None => None,
    }
}

impl View for RawError {
    type V = RawErrorView;

    closed spec fn view(&self) -> RawErrorView {
        RawErrorView {
            name: opt_str_view(self.name),
            message: opt_str_view(self.message),
            need_free: self.need_free,
        }
    }
}

impl Default for RawError {
    /// The unset error: no name, no message, nothing to release.
    fn default() -> (r: Self)
        ensures
            r@.name is None,
            r@.message is None,
            !r@.need_free,
    {
        RawError { name: None, message: None, need_free: false }
    }
}

impl RawError {
    /// The unset error: no name, no message, nothing to release.
    pub fn new() -> (r: Self)
        ensures
            r@.name is None,
            r@.message is None,
            !r@.need_free,
    {
        Default::default()
    }

    /// An error already populated with the given name and message.
    pub fn with(name: &str, message: Option<&str>) -> (r: Self)
        ensures
            r@.name == Some(name@),
            r@.message == (match message {
                Some(m) => Some(m@),
                None => None::<Seq<char>>,
            }),
            r@.need_free,
    {
        let mut v = RawError::new();
        v.set(name, message);
        v
    }

    /// Populate the error, releasing whatever it held before. The new
    /// buffers are owned, so a later `free` has something to release.
    pub fn set(&mut self, name: &str, message: Option<&str>)
        ensures
            final(self)@.name == Some(name@),
            final(self)@.message == (match message {
                Some(m) => Some(m@),
                None => None::<Seq<char>>,
            }),
            final(self)@.need_free,
    {
        self.name = Some(name.to_owned());
        self.message = match message {
            Some(m) => Some(m.to_owned()),
            None => None,
        };
        self.need_free = true;
    }

    /// Whether the error is populated.
    pub fn is_set(&self) -> (r: bool)
        ensures
            r == (self@.name is Some),
    {
        match &self.name {
            Some(_) => true,
            None => false,
        }
    }

    /// Release the buffers the error owns and reset it to the unset
    /// state. Releasing is the sole deallocation path and acts only on
    /// this value: afterwards there is nothing left to release, so a
    /// second call has no effect and no buffer is ever released twice.
    pub fn free(&mut self)
        ensures
            final(self)@.name is None,
            final(self)@.message is None,
            !final(self)@.need_free,
    {
        self.name = None;
        self.message = None;
        self.need_free = false;
    }

    /// The error name, if the error is populated.
    pub fn name(&self) -> (r: Option<&String>)
        ensures
            r is Some <==> self@.name is Some,
            r matches Some(s) ==> self@.name == Some(s@),
    {
        self.name.as_ref()
    }

    /// The human-readable message, if one was recorded.
    pub fn message(&self) -> (r: Option<&String>)
        ensures
            r is Some <==> self@.message is Some,
            r matches Some(s) ==> self@.message == Some(s@),
    {
        self.message.as_ref()
    }

    /// Turn the slot into a result: a populated error is the failure of
    /// the call that filled it, an unset one is success.
    pub fn into_result(self) -> (r: Result<(), Error>)
        ensures
            self@.name is Some ==> (r matches Err(e) && e@ == self@),
            self@.name is None ==> r is Ok,
    {
        if self.is_set() {
            Err(Error::from_raw(self))
        } else {
            Ok(())
        }
    }
}

impl Clone for RawError {
    /// A deep copy: the copy carries the same name and message in buffers
    /// of its own (so it is itself responsible for releasing them), never
    /// a second handle to the original's buffers.
    fn clone(&self) -> (r: Self)
        ensures
            r@.name == self@.name,
            r@.message == self@.message,
            r@.need_free == (self@.name is Some),
    {
        RawError {
            name: match &self.name {
                Some(n) => Some(n.clone()),
                None => None,
            },
            message: match &self.message {
                Some(m) => Some(m.clone()),
                None => None,
            },
            need_free: match &self.name {
                Some(_) => true,
                None => false,
            },
        }
    }
}

/// The structured failure of a bus call: an error name, an optional
/// human-readable message, and ownership of both.
///
/// It may have been sent by the called peer or raised locally by the
/// connection; either way it is the outcome of the round trip, distinct
/// from the plain [`Errno`] statuses of the transport itself.
#[derive(Debug)]
pub struct Error {
    raw: RawError,
}

impl View for Error {
    type V = RawErrorView;

    closed spec fn view(&self) -> RawErrorView {
        self.raw@
    }
}

impl Error {
    /// A populated error is always named.
    #[verifier::type_invariant]
    pub closed spec fn wf(self) -> bool {
        self.raw@.name is Some
    }

    /// Build an error from a populated raw slot.
    pub fn from_raw(raw: RawError) -> (r: Error)
        requires
            raw@.name is Some,
        ensures
            r@ == raw@,
    {
        Error { raw }
    }

    /// Build an error carrying the given name and optional message.
    pub fn new(name: &str, message: Option<&str>) -> (r: Error)
        ensures
            r@.name == Some(name@),
            r@.message == (match message {
                Some(m) => Some(m@),
                None => None::<Seq<char>>,
            }),
    {
        Error { raw: RawError::with(name, message) }
    }

    /// The error name.
    pub fn name(&self) -> (r: &String)
        ensures
            self@.name == Some(r@),
    {
        proof {
            use_type_invariant(self);
        }
        match self.raw.name() {
            Some(n) => n,
            None => unreached(),
        }
    }

    /// The human-readable message, if one was sent.
    pub fn message(&self) -> (r: Option<&String>)
        ensures
            r is Some <==> self@.message is Some,
            r matches Some(s) ==> self@.message == Some(s@),
    {
        self.raw.message()
    }

    /// The text that describes this error to a human: the message if one
    /// was sent, the name otherwise.
    pub fn description(&self) -> (r: &String)
        ensures
            self@.message is Some ==> self@.message == Some(r@),
            self@.message is None ==> self@.name == Some(r@),
    {
        match self.message() {
            Some(m) => m,
            None => self.name(),
        }
    }

}

impl Clone for Error {
    /// A deep copy with buffers of its own; releasing either copy leaves
    /// the other intact.
    fn clone(&self) -> (r: Self)
        ensures
            r@.name == self@.name,
            r@.message == self@.message,
    {
        proof {
            use_type_invariant(self);
        }
        Error { raw: self.raw.clone() }
    }
}

} // verus!
