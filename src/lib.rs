//! Single-word access to physical memory through a page mapping of a
//! memory device file.
//!
//! The library decides everything that does not need the operating system
//! to touch memory: which page to map for a target address and at which file
//! offset, where the word lies inside the mapped page, whether a queried page
//! size is usable, and in which order a mapping is torn down.
use vstd::prelude::*;

pub mod access;
pub mod error;
pub mod page;
pub mod page_size;
pub mod plan;
pub mod teardown;

pub use access::{read_word, write_word};
pub use error::MappingError;
pub use page::{mapping_file_offset, page_base, page_offset, word_offset};
pub use page_size::{get_page_size, page_size_from_query};
pub use plan::MappingPlan;
pub use teardown::{
    descriptor_still_open,
    flags_show_open,
    next_teardown_step,
    release,
    Held,
    TeardownStep,
};

verus! {

/// The conventional device file that exposes physical memory.
pub const DEV_MEM: &'static str = "/dev/mem";

} // verus!
