use vstd::prelude::*;

verus! {

/// The uniform error taxonomy of the credential service.
///
/// Every backend-specific failure is surfaced through one of these kinds;
/// the layer never retries and never swallows a backend error.
#[derive(Debug, PartialEq, Eq)]
pub enum Error {
    /// The active backend failed to construct, or a call into it failed for a
    /// backend-specific reason. Carries the backend's diagnostic message,
    /// passed through unmodified.
    PlatformError(String),
    /// A read or removal addressed a credential identity with no stored value.
    NotFound,
    /// A call was made before the service namespace was set.
    Uninitialized,
}

/// The outcome of a failed backend call, reduced to plain values: whether the
/// failure means "no such credential", and the backend's diagnostic message.
pub struct BackendFailure {
    pub absent: bool,
    pub message: String,
}

/// How a failed backend write is surfaced: always as a platform error
/// carrying the backend's message unmodified.
pub fn write_error(f: BackendFailure) -> (r: Error)
    ensures
        r == Error::PlatformError(f.message),
{
    Error::PlatformError(f.message)
}

/// How a failed backend read or removal is surfaced: absence becomes
/// `NotFound`; any other failure becomes a platform error carrying the
/// backend's message unmodified.
pub fn read_error(f: BackendFailure) -> (r: Error)
    ensures
        f.absent ==> r == Error::NotFound,
        !f.absent ==> r == Error::PlatformError(f.message),
{
    if f.absent {
        Error::NotFound
    } else {
        Error::PlatformError(f.message)
    }
}

/// How a backend read is interpreted as an existence probe: a retrieved
/// secret means present, absence means not present, and any other failure
/// is a platform error carrying the backend's message unmodified.
pub fn probe_outcome(r: Result<Vec<u8>, BackendFailure>) -> (out: Result<bool, Error>)
    ensures
        r is Ok ==> out == Ok::<bool, Error>(true),
        r matches Err(f) ==> out == (if f.absent {
            Ok::<bool, Error>(false)
        } else {
            Err::<bool, Error>(Error::PlatformError(f.message))
        }),
{
    match r {
        Ok(_) => Ok(true),
        Err(f) => {
            if f.absent {
                Ok(false)
            } else {
                Err(Error::PlatformError(f.message))
            }
        },
    }
}

} // verus!
