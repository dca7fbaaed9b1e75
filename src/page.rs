//! Addressing: from a target address to the page that holds it and
//! to the word inside that page.
use vstd::prelude::*;

use crate::error::MappingError;

verus! {

/// A usable page size: a power of two that holds at least one 32-bit word.
pub open spec fn is_page_size(p: usize) -> bool {
    p >= 4 && p & ((p - 1) as usize) == 0
}

/// The mask that keeps the bits of an address below the page size.
pub open spec fn page_mask(p: usize) -> usize {
    (p - 1) as usize
}

/// Splitting an address at a page boundary: the cleared part is at most the
/// address, and the two parts add up to it.
proof fn lemma_split_at_page(a: usize, p: usize)
    requires
        is_page_size(p),
    ensures
        a & !page_mask(p) <= a,
        a & page_mask(p) < p,
        (a & !page_mask(p)) + (a & page_mask(p)) == a,
        (a & !page_mask(p)) & page_mask(p) == 0,
{
    assert(a & !((p - 1) as usize) <= a && a & ((p - 1) as usize) < p && (a & !((p - 1) as usize))
        + (a & ((p - 1) as usize)) == a && (a & !((p - 1) as usize)) & ((p - 1) as usize) == 0)
        by (bit_vector)
        requires
            p >= 4 && p & ((p - 1) as usize) == 0,
    ;
}

/// The physical base of the page that holds `address`: the address with its
/// low page bits cleared.
pub fn page_base(address: usize, page_size: usize) -> (r: usize)
    requires
        is_page_size(page_size),
    ensures
        r == address & !page_mask(page_size),
        r <= address,
        address - r < page_size,
        r & page_mask(page_size) == 0,
{
    proof {
        lemma_split_at_page(address, page_size);
    }
    address & !(page_size - 1)
}

/// The position of `address` inside its page.
pub fn page_offset(address: usize, page_size: usize) -> (r: usize)
    requires
        is_page_size(page_size),
    ensures
        r == address & page_mask(page_size),
        r < page_size,
        r == address - (address & !page_mask(page_size)),
{
    proof {
        lemma_split_at_page(address, page_size);
    }
    address & (page_size - 1)
}

/// Whether the four bytes starting at `address` lie wholly inside the page
/// that holds `address`.
pub open spec fn word_fits(address: usize, p: usize) -> bool {
    (address & page_mask(p)) + 4 <= p
}

/// Where the four bytes of the word at byte address `address` start in its
/// page, or `OutsidePage` when they would run past the page's end.
pub open spec fn word_offset_result(address: usize, p: usize) -> Result<usize, MappingError> {
    if word_fits(address, p) {
        Ok(address & page_mask(p))
    } else {
        Err(MappingError::OutsidePage)
    }
}

/// The byte offset, from the start of the mapped page, of the word at byte
/// address `address`.
pub fn word_offset(address: usize, page_size: usize) -> (r: Result<usize, MappingError>)
    requires
        is_page_size(page_size),
    ensures
        r == word_offset_result(address, page_size),
        r is Ok ==> r->Ok_0 + 4 <= page_size,
{
    let offset = page_offset(address, page_size);
    if offset > page_size - 4 {
        Err(MappingError::OutsidePage)
    } else {
        Ok(offset)
    }
}

/// The offset in the device file at which the page holding `address` is
/// mapped. The offset must be representable as a signed 64-bit file offset.
pub fn mapping_file_offset(address: usize, page_size: usize) -> (r: Result<i64, MappingError>)
    requires
        is_page_size(page_size),
    ensures
        r is Ok <==> address & !page_mask(page_size) <= i64::MAX,
        r is Ok ==> r->Ok_0 == address & !page_mask(page_size),
        r is Err ==> r->Err_0 == MappingError::OffsetTooLarge,
{
    let base = page_base(address, page_size);
    if base as u64 <= i64::MAX as u64 {
        Ok(base as i64)
    } else {
        Err(MappingError::OffsetTooLarge)
    }
}

/// The in-page position is the same whether it is taken from the target
/// address alone or from the target address added, with wraparound, to the
/// integer value of a page-aligned mapping base.
pub proof fn lemma_offset_ignores_aligned_base(base: usize, address: usize, p: usize)
    requires
        is_page_size(p),
        base & page_mask(p) == 0,
    ensures
        ((base + address) as usize) & page_mask(p) == address & page_mask(p),
{
    assert(((base + address) as usize) & ((p - 1) as usize) == address & ((p - 1) as usize))
        by (bit_vector)
        requires
            p >= 4 && p & ((p - 1) as usize) == 0 && base & ((p - 1) as usize) == 0,
    ;
}

/// The word at an address whose four bytes fit in its page lies within
/// that page, starting at the address itself.
pub proof fn lemma_word_within_page(address: usize, p: usize)
    requires
        is_page_size(p),
        word_fits(address, p),
    ensures
        address & !page_mask(p) <= address,
        address + 4 <= (address & !page_mask(p)) + p,
        (address & !page_mask(p)) + (address & page_mask(p)) == address,
{
    lemma_split_at_page(address, p);
}

} // verus!
