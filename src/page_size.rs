//! The system page size: querying it and deciding whether it can be used.
use vstd::prelude::*;

use crate::error::MappingError;
use crate::page::is_page_size;

verus! {

#[verifier::external_type_specification]
#[verifier::external_body]
pub struct ExErrno(nix::errno::Errno);

/// Relies on nix::unistd::sysconf with SysconfVar::PAGE_SIZE: `Ok(Some(n))`
/// is the value that the system reports, `Ok(None)` means that the system
/// does not support the variable, and `Err` carries the errno of a failed
/// call. The value depends on the machine, so nothing more is stated.
#[verifier::external_body]
fn sysconf_page_size() -> (r: Result<Option<i64>, nix::errno::Errno>) {
    nix::unistd::sysconf(nix::unistd::SysconfVar::PAGE_SIZE)
}

/// What a page-size query yields for the mapping logic.
pub open spec fn page_size_result(query: Result<Option<i64>, nix::errno::Errno>) -> Result<
    usize,
    MappingError,
> {
    match query {
        Err(_) => Err(MappingError::PageSizeQueryFailed),
        Ok(None) => Err(MappingError::PageSizeUnsupported),
        Ok(Some(n)) => if 0 < n && n <= usize::MAX && is_page_size(n as usize) {
            Ok(n as usize)
        } else {
            Err(MappingError::InvalidPageSize)
        },
    }
}

/// Interprets the answer of a page-size query: a reported size is accepted
/// only when it is a power of two of at least four bytes.
pub fn page_size_from_query(query: Result<Option<i64>, nix::errno::Errno>) -> (r: Result<
    usize,
    MappingError,
>)
    ensures
        r == page_size_result(query),
        r is Ok ==> is_page_size(r->Ok_0),
{
    match query {
        Err(_) => Err(MappingError::PageSizeQueryFailed),
        Ok(None) => Err(MappingError::PageSizeUnsupported),
        Ok(Some(n)) => {
            if 0 < n && (n as u64) <= (usize::MAX as u64) {
                let p = n as usize;
                if p >= 4 && p & (p - 1) == 0 {
                    Ok(p)
                } else {
                    Err(MappingError::InvalidPageSize)
                }
            } else {
                Err(MappingError::InvalidPageSize)
            }
        },
    }
}

/// The errors that a page-size query can end in.
pub open spec fn is_page_size_error(e: MappingError) -> bool {
    ||| e == MappingError::PageSizeQueryFailed
    ||| e == MappingError::PageSizeUnsupported
    ||| e == MappingError::InvalidPageSize
}

/// Queries the system page size. Whatever the system answers, a size that is
/// returned is a power of two of at least four bytes.
pub fn get_page_size() -> (r: Result<usize, MappingError>)
    ensures
        r is Ok ==> is_page_size(r->Ok_0),
        r is Err ==> is_page_size_error(r->Err_0),
{
    let query = sysconf_page_size();
    page_size_from_query(query)
}

} // verus!
