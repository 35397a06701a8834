//! The reflective field-access capability that a record implements.

use crate::error::ErrSpec;
use crate::error::SetFieldError;
use vstd::prelude::*;

verus! {

/// The reflective field-access capability.
///
/// A record advertises a selector type `Field` (one case per
/// reflection-visible field, composite cases carrying the inner record's
/// selector) and a carrier type `FieldValue` (one case per distinct field
/// type). `set_field` writes a field chosen by selector, rejecting a
/// carrier of the wrong case with a [`SetFieldError`]; `get_field` reads
/// the current value of a field back out as a carrier.
///
/// A verified implementation fixes its behaviour by overriding the four
/// spec functions; the defaults promise nothing. The set-get law — after
/// a successful `set_field`, `get_field` on the same selector returns the
/// value that was set — then holds of the overridden models; see the
/// worked example's proofs.
pub trait Fielded: Sized {
    type Field;

    type FieldValue;

    /// Whether assigning `value` at `field` succeeds.
    open spec fn set_ok(self, field: Self::Field, value: Self::FieldValue) -> bool {
        false
    }

    /// The record after a successful assignment of `value` at `field`.
    open spec fn set_model(self, field: Self::Field, value: Self::FieldValue) -> Self {
        self
    }

    /// The error returned when assigning `value` at `field` fails.
    open spec fn set_err(self, field: Self::Field, value: Self::FieldValue) -> ErrSpec {
        arbitrary()
    }

    /// The carrier that reading `field` yields.
    open spec fn get_model(self, field: Self::Field) -> Self::FieldValue {
        arbitrary()
    }

    /// Set the value of the specified field.
    ///
    /// An error is returned if the value is incompatible with the
    /// specified field; the record is then left unchanged.
    fn set_field(&mut self, field: Self::Field, value: Self::FieldValue) -> (r: Result<
        (),
        SetFieldError,
    >)
        ensures
            old(self).set_ok(field, value) ==> r is Ok && *final (self) == old(self).set_model(
                field,
                value,
            ),
            !old(self).set_ok(field, value) ==> r is Err && *final (self) == *old(self)
                && r->Err_0@ == old(self).set_err(field, value),
    ;

    /// Read the current value of the specified field, as a carrier value.
    fn get_field(&self, field: &Self::Field) -> (r: Self::FieldValue)
        ensures
            r == self.get_model(*field),
    ;
}

} // verus!
