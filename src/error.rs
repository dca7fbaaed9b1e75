//! The ways in which preparing or using a page mapping can be refused.
use vstd::prelude::*;

verus! {

/// Why a mapping cannot be prepared or a word cannot be reached.
#[derive(Debug, Clone, Copy, PartialEq, Eq, Structural)]
pub enum MappingError {
    /// The page size could not be queried from the system.
    PageSizeQueryFailed,
    /// The system does not report a page size.
    PageSizeUnsupported,
    /// The reported page size is not a power of two of at least four bytes.
    InvalidPageSize,
    /// The page's base does not fit in a file offset.
    OffsetTooLarge,
    /// The word would reach past the end of its page.
    OutsidePage,
    /// The address lies in a page other than the mapped one.
    OtherPage,
}

impl MappingError {
    /// A short description of the error.
    pub fn message(&self) -> (r: &'static str) {
        match self {
            MappingError::PageSizeQueryFailed => "the page size could not be queried",
            MappingError::PageSizeUnsupported => "the page size is not supported by the system",
            MappingError::InvalidPageSize => "the page size is not a usable power of two",
            MappingError::OffsetTooLarge => "the page base does not fit in a file offset",
            MappingError::OutsidePage => "the word reaches past the end of its page",
            MappingError::OtherPage => "the address lies outside the mapped page",
        }
    }
}

} // verus!
