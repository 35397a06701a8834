//! The assignment error: the structured value a rejected field write
//! returns, and its ghost mirror for contracts.

use vstd::prelude::*;
use vstd::string::StringExecFns;

verus! {

/// The structured value returned when a dynamic field assignment rejects a
/// value of the wrong type: the selector case name of the deepest atomic
/// slot where projection failed, the textual name of the expected concrete
/// type, and a rendering of the carrier case actually received.
#[derive(Debug)]
pub struct SetFieldError {
    pub field: String,
    pub expected: String,
    pub received: String,
}

/// Ghost mirror of [`SetFieldError`]: the three attributes as character
/// sequences, for use in contracts.
pub struct ErrSpec {
    pub field: Seq<char>,
    pub expected: Seq<char>,
    pub received: Seq<char>,
}

/// Whether an executable conversion result agrees with its model: same
/// branch, same payload, and on failure the error reads as the model says.
pub open spec fn err_matches<T>(r: Result<T, SetFieldError>, model: Result<T, ErrSpec>) -> bool {
    match model {
        Ok(x) => r is Ok && r->Ok_0 == x,
        Err(e) => r is Err && r->Err_0@ == e,
    }
}

impl View for SetFieldError {
    type V = ErrSpec;

    open spec fn view(&self) -> ErrSpec {
        ErrSpec { field: self.field@, expected: self.expected@, received: self.received@ }
    }
}

impl SetFieldError {
    /// Replace the `field` attribute, leaving the other two untouched.
    /// Generated setters stamp the selector case name this way when a
    /// projection fails at their own arm.
    pub fn with_field(self, name: &str) -> (r: SetFieldError)
        ensures
            r@ == (ErrSpec { field: name@, ..self@ }),
    {
        SetFieldError { field: name.to_owned(), expected: self.expected, received: self.received }
    }

    /// The error rendered as one line of text.
    pub fn message(&self) -> (r: String)
        ensures
            r@ == "Wrong type for field '"@ + self.field@ + "': expected: "@ + self.expected@
                + ", got: "@ + self.received@,
    {
        let mut s: String = "Wrong type for field '".to_owned();
        s.append(self.field.as_str());
        s.append("': expected: ");
        s.append(self.expected.as_str());
        s.append(", got: ");
        s.append(self.received.as_str());
        s
    }
}

} // verus!
