//! Where one page mapping goes: the page size it spans and the file offset
//! of the page, fixed once when the mapping is prepared.
use vstd::prelude::*;

use crate::access::{page_after_write, read_outcome, read_word, write_word};
use crate::error::MappingError;
use crate::page::{
    is_page_size,
    mapping_file_offset,
    page_base,
    page_mask,
    word_fits,
    word_offset,
    word_offset_result,
};
use crate::page_size::{get_page_size, is_page_size_error};

verus! {

/// The placement of the one page that a mapping covers.
pub struct MappingPlan {
    page_size: usize,
    file_offset: i64,
}

impl MappingPlan {
    /// The size of the mapped page, in bytes.
    pub closed spec fn spec_page_size(&self) -> usize {
        self.page_size
    }

    /// The offset in the device file of the mapped page.
    pub closed spec fn spec_file_offset(&self) -> i64 {
        self.file_offset
    }

    #[verifier::type_invariant]
    spec fn well_formed(&self) -> bool {
        &&& is_page_size(self.page_size)
        &&& self.file_offset >= 0
        &&& (self.file_offset as usize) & page_mask(self.page_size) == 0
    }

    /// The plan for the page that holds `address`, given the page size: the
    /// page starts at the address with its low page bits cleared.
    pub fn with_page_size(address: usize, page_size: usize) -> (r: Result<
        MappingPlan,
        MappingError,
    >)
        requires
            is_page_size(page_size),
        ensures
            r is Ok <==> address & !page_mask(page_size) <= i64::MAX,
            r is Ok ==> r->Ok_0.spec_page_size() == page_size,
            r is Ok ==> r->Ok_0.spec_file_offset() == address & !page_mask(page_size),
            r is Err ==> r->Err_0 == MappingError::OffsetTooLarge,
    {
        match mapping_file_offset(address, page_size) {
            Ok(file_offset) => {
                proof {
                    let b = address & !page_mask(page_size);
                    assert(b & page_mask(page_size) == 0) by (bit_vector)
                        requires
                            b == address & !page_mask(page_size),
                    ;
                }
                Ok(MappingPlan { page_size, file_offset })
            },
            Err(e) => Err(e),
        }
    }

    /// The plan for the page that holds `address`, with the page size that
    /// the system reports. A failed or unusable page-size query is returned
    /// as its error.
    pub fn for_address(address: usize) -> (r: Result<MappingPlan, MappingError>)
        ensures
            r is Ok ==> is_page_size(r->Ok_0.spec_page_size()),
            r is Ok ==> r->Ok_0.spec_file_offset() == address & !page_mask(
                r->Ok_0.spec_page_size(),
            ),
            r is Err ==> is_page_size_error(r->Err_0) || r->Err_0 == MappingError::OffsetTooLarge,
    {
        let page_size = get_page_size()?;
        MappingPlan::with_page_size(address, page_size)
    }

    /// The size of the mapped page, in bytes.
    pub fn page_size(&self) -> (r: usize)
        ensures
            r == self.spec_page_size(),
            is_page_size(r),
    {
        proof {
            use_type_invariant(self);
        }
        self.page_size
    }

    /// The offset in the device file at which the page is mapped.
    pub fn file_offset(&self) -> (r: i64)
        ensures
            r == self.spec_file_offset(),
            r >= 0,
    {
        proof {
            use_type_invariant(self);
        }
        self.file_offset
    }

    /// Whether `address` lies in the page that the plan maps.
    pub open spec fn holds(&self, address: usize) -> bool {
        address & !page_mask(self.spec_page_size()) == self.spec_file_offset()
    }

    /// The byte offset, from the start of the mapped page, of the word at
    /// byte address `address`; the page size is the one fixed by the plan,
    /// not queried again. An address of another page is refused.
    pub fn word_offset(&self, address: usize) -> (r: Result<usize, MappingError>)
        ensures
            r == (if self.holds(address) {
                word_offset_result(address, self.spec_page_size())
            } else {
                Err(MappingError::OtherPage)
            }),
    {
        proof {
            use_type_invariant(self);
        }
        if !self.contains(address) {
            return Err(MappingError::OtherPage);
        }
        word_offset(address, self.page_size)
    }

    /// Whether `address` lies in the page that the plan maps.
    pub fn contains(&self, address: usize) -> (r: bool)
        ensures
            r == self.holds(address),
    {
        proof {
            use_type_invariant(self);
        }
        let base = page_base(address, self.page_size);
        base as u64 == self.file_offset as u64
    }

    /// Reads the four bytes of the word at byte address `address` from the
    /// mapped page, given as its bytes.
    pub fn read_word(&self, page: &[u8], address: usize) -> (r: Result<[u8; 4], MappingError>)
        requires
            page@.len() == self.spec_page_size(),
        ensures
            !self.holds(address) ==> r == Err::<[u8; 4], MappingError>(MappingError::OtherPage),
            self.holds(address) ==> (r is Ok <==> word_fits(address, self.spec_page_size())),
            self.holds(address) && r is Ok ==> read_outcome(
                page@,
                address,
                self.spec_page_size(),
            ) == Ok::<Seq<u8>, MappingError>(r->Ok_0@),
            self.holds(address) && r is Err ==> read_outcome(
                page@,
                address,
                self.spec_page_size(),
            ) == Err::<Seq<u8>, MappingError>(r->Err_0),
    {
        proof {
            use_type_invariant(self);
        }
        if !self.contains(address) {
            return Err(MappingError::OtherPage);
        }
        read_word(page, address, self.page_size)
    }

    /// Writes `bytes` to the four bytes of the word at byte address
    /// `address` in the mapped page, given as its bytes. No other byte
    /// changes.
    pub fn write_word(&self, page: &mut [u8], address: usize, bytes: [u8; 4]) -> (r: Result<
        (),
        MappingError,
    >)
        requires
            old(page)@.len() == self.spec_page_size(),
        ensures
            !self.holds(address) ==> r == Err::<(), MappingError>(MappingError::OtherPage)
                && final(page)@ == old(page)@,
            self.holds(address) ==> (r is Ok <==> word_fits(address, self.spec_page_size())),
            self.holds(address) && r is Err ==> r->Err_0 == MappingError::OutsidePage,
            self.holds(address) ==> final(page)@ == page_after_write(
                old(page)@,
                address,
                bytes@,
                self.spec_page_size(),
            ),
    {
        proof {
            use_type_invariant(self);
        }
        if !self.contains(address) {
            return Err(MappingError::OtherPage);
        }
        write_word(page, address, bytes, self.page_size)
    }
}

} // verus!
