use vstd::prelude::*;
use vstd::string::StringExecFns;

pub mod error;
pub mod locator;
pub mod platform;

use error::{APIError, AffinityError, InvalidAffinityMaskError};

verus! {

/// The outcome of one affinity cycle on a process.
pub enum Success {
    Updated {
        process_name: String,
        process_id: u32,
        old_affinity_mask: usize,
        new_affinity_mask: usize,
        system_affinity_mask: usize,
    },
    Unchanged {
        process_name: String,
        process_id: u32,
        affinity_mask: usize,
        system_affinity_mask: usize,
    },
}

impl Success {
    /// This outcome reports that `old` was replaced by `new` on process `pid` named `name`.
    pub open spec fn is_updated(self, name: Seq<char>, pid: u32, old: usize, new: usize, system: usize) -> bool {
        match self {
            Success::Updated {
                process_name,
                process_id,
                old_affinity_mask,
                new_affinity_mask,
                system_affinity_mask,
            } => process_name@ == name && process_id == pid && old_affinity_mask == old
                && new_affinity_mask == new && system_affinity_mask == system,
            Success::Unchanged { .. } => false,
        }
    }

    /// This outcome reports that process `pid` named `name` already had `mask`.
    pub open spec fn is_unchanged(self, name: Seq<char>, pid: u32, mask: usize, system: usize) -> bool {
        match self {
            Success::Unchanged { process_name, process_id, affinity_mask, system_affinity_mask } =>
                process_name@ == name && process_id == pid && affinity_mask == mask
                && system_affinity_mask == system,
            Success::Updated { .. } => false,
        }
    }

    pub fn updated(
        process_name: &str,
        process_id: u32,
        old_affinity_mask: usize,
        new_affinity_mask: usize,
        system_affinity_mask: usize,
    ) -> (r: Self)
        ensures
            r.is_updated(process_name@, process_id, old_affinity_mask, new_affinity_mask, system_affinity_mask),
    {
        Success::Updated {
            process_name: String::from_str(process_name),
            process_id,
            old_affinity_mask,
            new_affinity_mask,
            system_affinity_mask,
        }
    }

    pub fn unchanged(process_name: &str, process_id: u32, affinity_mask: usize, system_affinity_mask: usize) -> (r: Self)
        ensures
            r.is_unchanged(process_name@, process_id, affinity_mask, system_affinity_mask),
    {
        Success::Unchanged {
            process_name: String::from_str(process_name),
            process_id,
            affinity_mask,
            system_affinity_mask,
        }
    }
}

/// Every core that `desired` asks for is one that `system` offers.
pub open spec fn fits_system_mask(desired: usize, system: usize) -> bool {
    desired & !system == 0
}

/// Whether `process_affinity` sets no bit outside `system_affinity`.
pub fn is_possible_affinity(process_affinity: usize, system_affinity: usize) -> (r: bool)
    ensures
        r == fits_system_mask(process_affinity, system_affinity),
{
    let res = process_affinity & !system_affinity;
    res == 0
}

/// What the driver of a cycle has to do once the process's masks are known.
pub enum AffinityAction {
    /// The cycle is over, with this result; no mask is written.
    Report(Result<Success, AffinityError>),
    /// Write this mask to the process, then pass the outcome to `complete_update`.
    SetMask(usize),
}

/// `e` is a platform error with no underlying error and the given message.
pub open spec fn is_api_message(e: AffinityError, message: Seq<char>) -> bool {
    e matches AffinityError::APIError(a) && a.api_error is None && (a.message matches Some(m) && m@ == message)
}

/// `e` is a platform error that wraps `api_error` under the given message.
pub open spec fn is_api_failure(e: AffinityError, message: Seq<char>, api_error: windows::core::Error) -> bool {
    e matches AffinityError::APIError(a) && a.api_error == Some(api_error) && (a.message matches Some(m)
        && m@ == message)
}

/// Decides the rest of a cycle from the current, system and desired masks of
/// process `process_id`: nothing to do when the current mask is already the
/// desired one, a rejection when the desired mask asks for cores the system
/// lacks, and otherwise a single write of the desired mask.
pub fn decide_affinity(
    process_name: &str,
    process_id: u32,
    affinity_mask: usize,
    process_affinity_mask: usize,
    system_affinity_mask: usize,
) -> (r: AffinityAction)
    ensures
        process_affinity_mask == affinity_mask ==> (r matches AffinityAction::Report(Ok(s))
            && s.is_unchanged(process_name@, process_id, affinity_mask, system_affinity_mask)),
        process_affinity_mask != affinity_mask && !fits_system_mask(affinity_mask, system_affinity_mask)
            ==> (r matches AffinityAction::Report(Err(AffinityError::InvalidAffinityMaskError(e)))
            && e.desired_affinity == affinity_mask && e.system_affinity == system_affinity_mask),
        process_affinity_mask != affinity_mask && fits_system_mask(affinity_mask, system_affinity_mask)
            ==> r == AffinityAction::SetMask(affinity_mask),
{
    if process_affinity_mask == affinity_mask {
        return AffinityAction::Report(
            Ok(Success::unchanged(process_name, process_id, affinity_mask, system_affinity_mask)),
        );
    }
    if !is_possible_affinity(affinity_mask, system_affinity_mask) {
        return AffinityAction::Report(
            Err(
                AffinityError::InvalidAffinityMaskError(
                    InvalidAffinityMaskError::new(affinity_mask, system_affinity_mask),
                ),
            ),
        );
    }
    AffinityAction::SetMask(affinity_mask)
}

/// Ends a cycle after the write of `new_affinity_mask` was attempted: the
/// update on success, the failed write otherwise.
pub fn complete_update(
    process_name: &str,
    process_id: u32,
    old_affinity_mask: usize,
    new_affinity_mask: usize,
    system_affinity_mask: usize,
    written: bool,
) -> (r: Result<Success, AffinityError>)
    ensures
        written ==> (r matches Ok(s)
            && s.is_updated(process_name@, process_id, old_affinity_mask, new_affinity_mask, system_affinity_mask)),
        !written ==> (r matches Err(e) && is_api_message(e, "SetProcessAffinityMask"@)),
{
    if !written {
        return Err(AffinityError::APIError(APIError::with_message("SetProcessAffinityMask")));
    }
    Ok(Success::updated(process_name, process_id, old_affinity_mask, new_affinity_mask, system_affinity_mask))
}

/// The error for a failed read of the process's and the system's masks.
pub fn mask_query_error() -> (r: AffinityError)
    ensures
        is_api_message(r, "GetProcessAffinityMask"@),
{
    AffinityError::APIError(APIError::with_message("GetProcessAffinityMask"))
}

/// The error for a process snapshot that could not be taken.
pub fn process_list_error(api_error: windows::core::Error) -> (r: AffinityError)
    ensures
        is_api_failure(r, "Unable to read process list"@, api_error),
{
    AffinityError::APIError(APIError::with_message_and_api_error("Unable to read process list", api_error))
}

/// The error for a process that could not be opened.
pub fn open_process_error(process_name: &str, api_error: windows::core::Error) -> (r: AffinityError)
    ensures
        is_api_failure(r, "Error opening process "@ + process_name@, api_error),
{
    let message = String::from_str("Error opening process ").concat(process_name);
    AffinityError::APIError(APIError::with_message_and_api_error(message.as_str(), api_error))
}

} // verus!
