//! Reading and writing the four bytes of the 32-bit word at a byte address,
//! through the mapped page that holds it. A page's contents are seen as its
//! bytes, and the device behind the pages as a function from each byte
//! address to the byte stored there. The bytes of a word are handed over in
//! memory order; turning them into a number in the machine's byte order is
//! left to the caller.
use vstd::prelude::*;

use crate::error::MappingError;
use crate::page::{
    is_page_size,
    lemma_word_within_page,
    page_mask,
    word_fits,
    word_offset,
    word_offset_result,
};

verus! {

/// The four bytes of `page` that start at `offset`.
pub open spec fn word_bytes(page: Seq<u8>, offset: int) -> Seq<u8> {
    page.subrange(offset, offset + 4)
}

/// `page` with the four bytes that start at `offset` replaced by `bytes`.
pub open spec fn with_word_bytes(page: Seq<u8>, offset: int, bytes: Seq<u8>) -> Seq<u8> {
    Seq::new(page.len(), |i: int| if offset <= i < offset + 4 { bytes[i - offset] } else { page[i] })
}

/// What reading the word at `address` yields on the page that holds it,
/// whose bytes are `page`.
pub open spec fn read_outcome(page: Seq<u8>, address: usize, p: usize) -> Result<Seq<u8>, MappingError> {
    match word_offset_result(address, p) {
        Ok(o) => Ok(word_bytes(page, o as int)),
        Err(e) => Err(e),
    }
}

/// The bytes of the page after `bytes` is written to the word at `address`;
/// a refused write leaves the page as it was.
pub open spec fn page_after_write(page: Seq<u8>, address: usize, bytes: Seq<u8>, p: usize) -> Seq<
    u8,
> {
    match word_offset_result(address, p) {
        Ok(o) => with_word_bytes(page, o as int, bytes),
        Err(_) => page,
    }
}

/// Reads the four bytes of the word at byte address `address` from the
/// mapped page of `page_size` bytes that holds it.
pub fn read_word(page: &[u8], address: usize, page_size: usize) -> (r: Result<[u8; 4], MappingError>)
    requires
        is_page_size(page_size),
        page@.len() == page_size,
    ensures
        r is Ok <==> word_fits(address, page_size),
        r is Ok ==> read_outcome(page@, address, page_size) == Ok::<Seq<u8>, MappingError>(
            r->Ok_0@,
        ),
        r is Err ==> read_outcome(page@, address, page_size) == Err::<Seq<u8>, MappingError>(
            r->Err_0,
        ),
{
    match word_offset(address, page_size) {
        Ok(o) => {
            let r = [page[o], page[o + 1], page[o + 2], page[o + 3]];
            assert(r@ =~= word_bytes(page@, o as int));
            Ok(r)
        },
        Err(e) => Err(e),
    }
}

/// Writes `bytes` to the four bytes of the word at byte address `address`
/// in the mapped page of `page_size` bytes that holds it. No other byte
/// changes.
pub fn write_word(page: &mut [u8], address: usize, bytes: [u8; 4], page_size: usize) -> (r: Result<
    (),
    MappingError,
>)
    requires
        is_page_size(page_size),
        old(page)@.len() == page_size,
    ensures
        r is Ok <==> word_fits(address, page_size),
        r is Err ==> r->Err_0 == MappingError::OutsidePage,
        final(page)@ == page_after_write(old(page)@, address, bytes@, page_size),
{
    match word_offset(address, page_size) {
        Ok(o) => {
            page[o] = bytes[0];
            page[o + 1] = bytes[1];
            page[o + 2] = bytes[2];
            page[o + 3] = bytes[3];
            assert(page@ =~= with_word_bytes(old(page)@, o as int, bytes@));
            Ok(())
        },
        Err(e) => Err(e),
    }
}

/// The bytes of the page that holds `address`, as the device holds them.
pub open spec fn device_page(device: spec_fn(int) -> u8, address: usize, p: usize) -> Seq<u8> {
    Seq::new(p as nat, |i: int| device((address & !page_mask(p)) + i))
}

/// The four bytes of the device that start at `address`.
pub open spec fn device_word(device: spec_fn(int) -> u8, address: int) -> Seq<u8> {
    Seq::new(4, |i: int| device(address + i))
}

/// The device after `bytes` is written to the word at `address` through
/// the page that holds it; a refused write changes nothing.
pub open spec fn device_after_write(
    device: spec_fn(int) -> u8,
    address: usize,
    bytes: Seq<u8>,
    p: usize,
) -> spec_fn(int) -> u8 {
    if word_fits(address, p) {
        |k: int| if address <= k < address + 4 { bytes[k - address] } else { device(k) }
    } else {
        device
    }
}

/// A write followed by a read at the same address yields the written bytes,
/// for every address whose word lies in its page.
pub proof fn lemma_write_then_read(page: Seq<u8>, address: usize, bytes: Seq<u8>, p: usize)
    requires
        is_page_size(p),
        page.len() == p,
        bytes.len() == 4,
        word_fits(address, p),
    ensures
        read_outcome(page_after_write(page, address, bytes, p), address, p) == Ok::<
            Seq<u8>,
            MappingError,
        >(bytes),
{
    let o = (address & page_mask(p)) as int;
    assert(word_bytes(with_word_bytes(page, o, bytes), o) =~= bytes);
}

/// Reading through the mapped page yields the device's four bytes at the
/// address.
pub proof fn lemma_read_through_page(device: spec_fn(int) -> u8, address: usize, p: usize)
    requires
        is_page_size(p),
        word_fits(address, p),
    ensures
        read_outcome(device_page(device, address, p), address, p) == Ok::<Seq<u8>, MappingError>(
            device_word(device, address as int),
        ),
{
    lemma_word_within_page(address, p);
    let o = (address & page_mask(p)) as int;
    assert(word_bytes(device_page(device, address, p), o) =~= device_word(device, address as int));
}

/// Writing through the mapped page changes the device exactly as writing
/// the four bytes at the address does.
pub proof fn lemma_write_through_page(
    device: spec_fn(int) -> u8,
    address: usize,
    bytes: Seq<u8>,
    p: usize,
)
    requires
        is_page_size(p),
        bytes.len() == 4,
    ensures
        page_after_write(device_page(device, address, p), address, bytes, p) == device_page(
            device_after_write(device, address, bytes, p),
            address,
            p,
        ),
{
    if word_fits(address, p) {
        lemma_word_within_page(address, p);
    }
    assert(page_after_write(device_page(device, address, p), address, bytes, p) =~= device_page(
        device_after_write(device, address, bytes, p),
        address,
        p,
    ));
}

/// Two write and read pairs at addresses whose words do not overlap do not
/// disturb each other, whether or not the addresses share a page: each pair
/// maps the page that holds its own address, and after both writes each
/// address reads back its own bytes.
pub proof fn lemma_write_read_pairs_independent(
    device: spec_fn(int) -> u8,
    a1: usize,
    b1: Seq<u8>,
    a2: usize,
    b2: Seq<u8>,
    p: usize,
)
    requires
        is_page_size(p),
        word_fits(a1, p),
        word_fits(a2, p),
        a1 + 4 <= a2 || a2 + 4 <= a1,
        b1.len() == 4,
        b2.len() == 4,
    ensures
        read_outcome(
            device_page(device_after_write(device, a1, b1, p), a1, p),
            a1,
            p,
        ) == Ok::<Seq<u8>, MappingError>(b1),
        read_outcome(
            device_page(
                device_after_write(device_after_write(device, a1, b1, p), a2, b2, p),
                a2,
                p,
            ),
            a2,
            p,
        ) == Ok::<Seq<u8>, MappingError>(b2),
        read_outcome(
            device_page(
                device_after_write(device_after_write(device, a1, b1, p), a2, b2, p),
                a1,
                p,
            ),
            a1,
            p,
        ) == Ok::<Seq<u8>, MappingError>(b1),
{
    let d1 = device_after_write(device, a1, b1, p);
    let d2 = device_after_write(d1, a2, b2, p);
    lemma_read_through_page(d1, a1, p);
    lemma_read_through_page(d2, a2, p);
    lemma_read_through_page(d2, a1, p);
    assert(device_word(d1, a1 as int) =~= b1);
    assert(device_word(d2, a2 as int) =~= b2);
    assert(device_word(d2, a1 as int) =~= b1);
}

} // verus!
