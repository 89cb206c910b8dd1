use vstd::prelude::*;

verus! {

/// Why a snapshot or a translation failed.
///
/// A status is the raw `NTSTATUS` that the kernel returned.
#[derive(Debug, Clone, Copy, PartialEq, Eq, Structural)]
pub enum SpfError {
    /// One of the two privileges the queries need could not be raised.
    RaisePrivilege(i32),
    /// The physical memory ranges could not be queried.
    QueryRanges(i32),
    /// A page frame query failed.
    QueryPfn(i32),
    /// A buffer size or layout could not be formed, or a reply does not fit it.
    Layout,
    /// The address lies in no page that the snapshot observed.
    Translate,
    /// A buffer could not be allocated.
    Allocation,
}

/// The `NT_SUCCESS` rule: a status is a success when it is not negative.
pub open spec fn nt_success(status: i32) -> bool {
    status >= 0
}

/// Maps the status of one privilege adjustment to the snapshot's outcome.
pub fn raise_outcome(status: i32) -> (r: Result<(), SpfError>)
    ensures
        nt_success(status) ==> r == Ok::<(), SpfError>(()),
        !nt_success(status) ==> r == Err::<(), SpfError>(SpfError::RaisePrivilege(status)),
{
    if status >= 0 {
        Ok(())
    } else {
        Err(SpfError::RaisePrivilege(status))
    }
}

} // verus!
