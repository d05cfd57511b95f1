//! The ways in which the locator can refuse a call.

use vstd::prelude::*;

verus! {

/// Why a call on the locator failed.
#[derive(Debug, Clone, Copy, PartialEq, Eq, Structural)]
pub enum ServiceLocatorError {
    /// The slot was empty when access was asked for.
    NotProvided,
    /// A conditional registration met an occupied slot.
    AlreadyProvided,
    /// A holder of exclusive access ended abnormally, and no registration has
    /// happened since.
    Poisoned,
}

/// The coarse class under which a hosting application files an error.
#[derive(Debug, Clone, Copy, PartialEq, Eq, Structural)]
pub enum ErrorClass {
    NotFound,
    AlreadyExists,
    Other,
}

impl ServiceLocatorError {
    /// The class of each error.
    pub open spec fn spec_class(self) -> ErrorClass {
        match self {
            ServiceLocatorError::NotProvided => ErrorClass::NotFound,
            ServiceLocatorError::AlreadyProvided => ErrorClass::AlreadyExists,
            ServiceLocatorError::Poisoned => ErrorClass::Other,
        }
    }

    /// The description of each error, as a sequence of characters.
    pub open spec fn spec_message(self) -> Seq<char> {
        match self {
            ServiceLocatorError::NotProvided => "The service is not provided yet."@,
            ServiceLocatorError::AlreadyProvided => "The service is already provided."@,
            ServiceLocatorError::Poisoned =>
                "Some caller panicked while the service was mutably borrowed."@,
        }
    }

    /// Files the error under its coarse class.
    pub fn class(&self) -> (res: ErrorClass)
        ensures
            res == self.spec_class(),
    {
        match self {
            ServiceLocatorError::NotProvided => ErrorClass::NotFound,
            ServiceLocatorError::AlreadyProvided => ErrorClass::AlreadyExists,
            ServiceLocatorError::Poisoned => ErrorClass::Other,
        }
    }

    /// The description as a borrowed string.
    pub fn message(&self) -> (res: &'static str)
        ensures
            res@ == self.spec_message(),
    {
        match self {
            ServiceLocatorError::NotProvided => "The service is not provided yet.",
            ServiceLocatorError::AlreadyProvided => "The service is already provided.",
            ServiceLocatorError::Poisoned =>
                "Some caller panicked while the service was mutably borrowed.",
        }
    }

    /// The description as an owned string.
    pub fn to_string(&self) -> (res: String)
        ensures
            res@ == self.spec_message(),
    {
        self.message().to_owned()
    }
}

#[verifier::external_type_specification]
#[verifier::external_body]
pub struct ExIoError(std::io::Error);

/// The error that `std::io::Error::new` makes of a kind and a message.
pub uninterp spec fn io_error_of(class: ErrorClass, message: Seq<char>) -> std::io::Error;

/// `std::io::Error::new`, with the kind of the standard library that bears
/// the name of `class`: the result is the error that the standard library
/// makes of that kind and `message`.
#[verifier::external_body]
fn new_io_error(class: ErrorClass, message: String) -> (err: std::io::Error)
    ensures
        err == io_error_of(class, message@),
{
    let kind = match class {
        ErrorClass::NotFound => std::io::ErrorKind::NotFound,
        ErrorClass::AlreadyExists => std::io::ErrorKind::AlreadyExists,
        ErrorClass::Other => std::io::ErrorKind::Other,
    };
    std::io::Error::new(kind, message)
}

impl From<ServiceLocatorError> for std::io::Error {
    /// The error of the standard library of the same class, with the
    /// description as its message.
    fn from(error: ServiceLocatorError) -> (err: std::io::Error) {
        new_io_error(error.class(), error.to_string())
    }
}

impl vstd::std_specs::convert::FromSpecImpl<ServiceLocatorError> for std::io::Error {
    open spec fn obeys_from_spec() -> bool {
        true
    }

    open spec fn from_spec(error: ServiceLocatorError) -> Self {
        io_error_of(error.spec_class(), error.spec_message())
    }
}

/// No two errors share a description, and none is empty.
pub proof fn lemma_messages_distinct(a: ServiceLocatorError, b: ServiceLocatorError)
    ensures
        a.spec_message().len() > 0,
        a.spec_message() == b.spec_message() <==> a == b,
{
    reveal_strlit("The service is not provided yet.");
    reveal_strlit("The service is already provided.");
    reveal_strlit("Some caller panicked while the service was mutably borrowed.");
    let n = "The service is not provided yet."@;
    let p = "The service is already provided."@;
    let q = "Some caller panicked while the service was mutably borrowed."@;
    assert(n[15] == 'n');
    assert(p[15] == 'a');
    assert(n.len() == 32 && p.len() == 32 && q.len() == 60);
}

} // verus!
