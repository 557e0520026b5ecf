use vstd::prelude::*;

verus! {

/// A platform error as reported by the Windows API bindings; carried through unread.
#[verifier::external_type_specification]
#[verifier::external_body]
pub struct ExWindowsError(windows::core::Error);

} // verus!
