use vstd::prelude::*;
use crate::input::InputValidationErrors;

verus! {

/// A failure produced while executing a use case through its validated boundary.
#[derive(Debug)]
pub enum UseCaseExecutionError<E> {
    /// The input failed one or more use-case input rules.
    InvalidInput(InputValidationErrors),
    /// The validated input reached the use case, which returned its own error.
    Execution(E),
}

impl<E> UseCaseExecutionError<E> {
    /// Returns the violations when input validation failed.
    pub fn input_errors(&self) -> (errors: Option<&InputValidationErrors>)
        ensures
            match self {
                UseCaseExecutionError::InvalidInput(inner) => errors == Some(inner),
                UseCaseExecutionError::Execution(_) => errors is None,
            },
    {
        match self {
            UseCaseExecutionError::InvalidInput(errors) => Some(errors),
            UseCaseExecutionError::Execution(_) => None,
        }
    }

    /// Returns the use case's own error when its prepared implementation failed.
    pub fn execution_error(&self) -> (error: Option<&E>)
        ensures
            match self {
                UseCaseExecutionError::InvalidInput(_) => error is None,
                UseCaseExecutionError::Execution(inner) => error == Some(inner),
            },
    {
        match self {
            UseCaseExecutionError::InvalidInput(_) => None,
            UseCaseExecutionError::Execution(error) => Some(error),
        }
    }
}

impl<E> From<InputValidationErrors> for UseCaseExecutionError<E> {
    fn from(errors: InputValidationErrors) -> (result: Self) {
        UseCaseExecutionError::InvalidInput(errors)
    }
}

impl<E> vstd::std_specs::convert::FromSpecImpl<InputValidationErrors> for UseCaseExecutionError<E> {
    open spec fn obeys_from_spec() -> bool {
        true
    }

    open spec fn from_spec(errors: InputValidationErrors) -> Self {
        UseCaseExecutionError::InvalidInput(errors)
    }
}


/// The first step of a use case's outer `execute`: the input as it was
/// transformed and validated, and what processing it reported. Valid input
/// goes on to the authored body; invalid input is answered with its
/// violations and the body never runs.
pub fn gate_input<T, E>(input: T, processed: Result<(), InputValidationErrors>) -> (gated: Result<
    T,
    UseCaseExecutionError<E>,
>)
    ensures
        match processed {
            Ok(()) => gated == Ok::<T, UseCaseExecutionError<E>>(input),
            Err(errors) => gated == Err::<T, UseCaseExecutionError<E>>(UseCaseExecutionError::InvalidInput(errors)),
        },
{
    match processed {
        Ok(()) => Ok(input),
        Err(errors) => Err(UseCaseExecutionError::InvalidInput(errors)),
    }
}

/// The last step of a use case's outer `execute`: the authored body's output
/// passes through, and its own error becomes `Execution`.
pub fn execution_outcome<O, E>(outcome: Result<O, E>) -> (answered: Result<O, UseCaseExecutionError<E>>)
    ensures
        match outcome {
            Ok(output) => answered == Ok::<O, UseCaseExecutionError<E>>(output),
            Err(error) => answered == Err::<O, UseCaseExecutionError<E>>(UseCaseExecutionError::Execution(error)),
        },
{
    match outcome {
        Ok(output) => Ok(output),
        Err(error) => Err(UseCaseExecutionError::Execution(error)),
    }
}

} // verus!
