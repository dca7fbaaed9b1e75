use mem::{
    descriptor_still_open, flags_show_open, get_page_size, next_teardown_step,
    page_size_from_query, release, Held, MappingError, TeardownStep, DEV_MEM,
};
use nix::errno::Errno;

#[test]
fn page_size_query_accepts_powers_of_two() {
    assert_eq!(page_size_from_query(Ok(Some(4096))), Ok(4096));
    assert_eq!(page_size_from_query(Ok(Some(65536))), Ok(65536));
    assert_eq!(page_size_from_query(Ok(Some(4))), Ok(4));
}

#[test]
fn page_size_query_rejects_unusable_sizes() {
    assert_eq!(page_size_from_query(Ok(Some(0))), Err(MappingError::InvalidPageSize));
    assert_eq!(page_size_from_query(Ok(Some(-4096))), Err(MappingError::InvalidPageSize));
    assert_eq!(page_size_from_query(Ok(Some(2))), Err(MappingError::InvalidPageSize));
    assert_eq!(page_size_from_query(Ok(Some(4095))), Err(MappingError::InvalidPageSize));
    assert_eq!(page_size_from_query(Ok(Some(6144))), Err(MappingError::InvalidPageSize));
}

#[test]
fn page_size_query_unsupported_or_failed() {
    assert_eq!(page_size_from_query(Ok(None)), Err(MappingError::PageSizeUnsupported));
    assert_eq!(page_size_from_query(Err(Errno::EINVAL)), Err(MappingError::PageSizeQueryFailed));
}

#[test]
fn system_page_size_is_usable() {
    let p = get_page_size().unwrap();
    assert!(p >= 4 && p.is_power_of_two());
}

#[test]
fn teardown_unmaps_then_closes() {
    let mut held = Held { mapping: true, descriptor: true };
    let first = next_teardown_step(held);
    assert_eq!(first, TeardownStep::Unmap);
    held = release(held, first);
    assert_eq!(held, Held { mapping: false, descriptor: true });
    let second = next_teardown_step(held);
    assert_eq!(second, TeardownStep::Close);
    held = release(held, second);
    assert_eq!(held, Held { mapping: false, descriptor: false });
    assert_eq!(next_teardown_step(held), TeardownStep::Done);
}

#[test]
fn teardown_without_mapping_only_closes() {
    let held = Held { mapping: false, descriptor: true };
    assert_eq!(next_teardown_step(held), TeardownStep::Close);
    let held = release(held, TeardownStep::Close);
    assert_eq!(next_teardown_step(held), TeardownStep::Done);
    assert_eq!(release(held, TeardownStep::Done), held);
}

#[test]
fn repeated_teardowns_release_everything() {
    for _ in 0..1000 {
        let mut held = Held { mapping: true, descriptor: true };
        let mut steps = 0;
        loop {
            let step = next_teardown_step(held);
            if step == TeardownStep::Done {
                break;
            }
            held = release(held, step);
            steps += 1;
        }
        assert_eq!(steps, 2);
        assert_eq!(held, Held { mapping: false, descriptor: false });
    }
}

#[test]
fn flags_query_outcome() {
    assert!(flags_show_open(Ok(0)));
    assert!(flags_show_open(Ok(1)));
    assert!(!flags_show_open(Err(Errno::EBADF)));
}

#[test]
fn closed_descriptor_is_not_open() {
    assert!(!descriptor_still_open(-1));
    assert!(!descriptor_still_open(1_000_000));
}

#[test]
fn device_path() {
    assert_eq!(DEV_MEM, "/dev/mem");
}
