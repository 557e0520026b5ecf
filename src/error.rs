use vstd::prelude::*;
use vstd::string::StringExecFns;

verus! {

/// Every way in which one affinity cycle can fail.
pub enum AffinityError {
    InvalidAffinityMaskError(InvalidAffinityMaskError),
    APIError(APIError),
    ProcessNotFoundError(ProcessNotFoundError),
}

/// The desired mask asks for cores that the system mask does not offer.
pub struct InvalidAffinityMaskError {
    pub desired_affinity: usize,
    pub system_affinity: usize,
}

impl InvalidAffinityMaskError {
    pub fn new(desired_affinity: usize, system_affinity: usize) -> (r: Self)
        ensures
            r.desired_affinity == desired_affinity,
            r.system_affinity == system_affinity,
    {
        InvalidAffinityMaskError { desired_affinity, system_affinity }
    }
}

/// A failed platform call, with an optional context message and the
/// optional platform error behind it.
pub struct APIError {
    pub api_error: Option<windows::core::Error>,
    pub message: Option<String>,
}

impl APIError {
    pub fn new() -> (r: Self)
        ensures
            r.api_error is None,
            r.message is None,
    {
        APIError { api_error: None, message: None }
    }

    pub fn with_message(message: &str) -> (r: Self)
        ensures
            r.api_error is None,
            r.message matches Some(m) && m@ == message@,
    {
        APIError { api_error: None, message: Some(String::from_str(message)) }
    }

    pub fn with_api_error(api_error: windows::core::Error) -> (r: Self)
        ensures
            r.api_error == Some(api_error),
            r.message is None,
    {
        APIError { api_error: Some(api_error), message: None }
    }

    pub fn with_message_and_api_error(message: &str, api_error: windows::core::Error) -> (r: Self)
        ensures
            r.api_error == Some(api_error),
            r.message matches Some(m) && m@ == message@,
    {
        APIError { api_error: Some(api_error), message: Some(String::from_str(message)) }
    }
}

impl Default for APIError {
    fn default() -> (r: Self)
        ensures
            r.api_error is None,
            r.message is None,
    {
        APIError::new()
    }
}

/// No running process has the requested executable name.
pub struct ProcessNotFoundError {
    pub process_name: String,
}

impl ProcessNotFoundError {
    pub fn new(process_name: &str) -> (r: Self)
        ensures
            r.process_name@ == process_name@,
    {
        ProcessNotFoundError { process_name: String::from_str(process_name) }
    }
}

} // verus!
