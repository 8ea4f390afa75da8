use vstd::prelude::*;

verus! {

/// Outcome of an operation that either succeeded or failed with an error
/// value of type `T`.
pub struct OperationStatus<T> {
    success: bool,
    error: Option<T>,
}

impl<T> OperationStatus<T> {
    /// Whether the status reports success.
    pub closed spec fn spec_success(&self) -> bool {
        self.success
    }

    /// The error carried by the status, if any.
    pub closed spec fn spec_error(&self) -> Option<T> {
        self.error
    }

    pub fn new(success: bool, error: Option<T>) -> (r: OperationStatus<T>)
        ensures
            r.spec_success() == success,
            r.spec_error() == error,
    {
        Self { success, error }
    }

    pub fn new_success() -> (r: OperationStatus<T>)
        ensures
            r.spec_success(),
            r.spec_error() is None,
    {
        Self { success: true, error: None }
    }

    pub fn new_error(error: T) -> (r: OperationStatus<T>)
        ensures
            !r.spec_success(),
            r.spec_error() == Some(error),
    {
        Self { success: false, error: Some(error) }
    }

    pub fn success(&self) -> (r: bool)
        ensures
            r == self.spec_success(),
    {
        self.success
    }

    pub fn error(&self) -> (r: Option<&T>)
        ensures
            r == match self.spec_error() {
                Some(e) => Some(&e),
                None => None,
            },
    {
        self.error.as_ref()
    }
}

} // verus!
