pub mod error;
pub mod transformers;

pub use error::{item_path, InputValidationErrors, InputViolation, InputViolationView};
use vstd::prelude::*;

verus! {

/// Transforms and validates a use-case input independently of its transport.
///
/// The provided methods run the transformations before any validator: what
/// they return is what `transform` leaves and `validate` then reports.
pub trait UseCaseInput: Sized + 'static {
    /// Applies all configured transformations in declaration order.
    fn transform(&mut self);

    /// Runs every configured validator and returns all violations.
    fn validate(&self) -> Result<(), InputValidationErrors>;

    /// Applies transformations and then validates the resulting value.
    fn process(&mut self) -> (result: Result<(), InputValidationErrors>)
        ensures
            exists|target: &mut Self|
                *target == *old(self) && *final(target) == *final(self) && call_ensures(
                    Self::transform,
                    (target,),
                    (),
                ),
            call_ensures(Self::validate, (&*final(self),), result),
    {
        self.transform();
        self.validate()
    }

    /// Processes an owned input and returns the transformed value.
    fn into_processed(self) -> (result: Result<Self, InputValidationErrors>)
        ensures
            exists|target: &mut Self, checked: Result<(), InputValidationErrors>|
                *target == self && call_ensures(Self::transform, (target,), ()) && call_ensures(
                    Self::validate,
                    (&*final(target),),
                    checked,
                ) && match (checked, result) {
                    (Ok(()), Ok(processed)) => processed == *final(target),
                    (Err(errors), Err(reported)) => reported == errors,
                    _ => false,
                },
    {
        let mut input = self;
        match input.process() {
            Ok(()) => Ok(input),
            Err(errors) => Err(errors),
        }
    }
}

} // verus!
