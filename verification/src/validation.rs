//! Validation as a capability: a value either passes or is rejected with a
//! message that says why.

use vstd::prelude::*;

verus! {

/// Why a value was rejected.
#[derive(Clone, Debug, PartialEq, Eq)]
pub struct ValidationError {
    pub message: String,
}

impl View for ValidationError {
    type V = Seq<char>;

    open spec fn view(&self) -> Seq<char> {
        self.message@
    }
}

impl ValidationError {
    /// A rejection that carries `message`.
    pub fn new(message: &str) -> (error: ValidationError)
        ensures
            error@ == message@,
    {
        ValidationError { message: String::from_str(message) }
    }

    /// The human-readable message, as an owned string.
    pub fn to_string(&self) -> (text: String)
        ensures
            text@ == self@,
    {
        self.message.clone()
    }
}

/// A value that can be checked before it is stored or published.
pub trait Validatable {
    /// The message with which the value is rejected; `None` where it is
    /// acceptable.
    spec fn rejection(&self) -> Option<Seq<char>>;

    /// Accepts the value, or rejects it with the message that `rejection`
    /// gives.
    fn validate(&self) -> (outcome: Result<(), ValidationError>)
        ensures
            match outcome {
                Ok(_) => self.rejection() is None,
                Err(error) => self.rejection() == Some(error@),
            },
    ;
}

} // verus!
