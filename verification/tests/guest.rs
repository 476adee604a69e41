use rustshyper_vmm::error::{ErrorKind, VmmError};
use rustshyper_vmm::guest::write_guest;

#[test]
fn writes_touch_only_their_range() {
    let mut memory = vec![0_u8; 16];
    write_guest(&mut memory, 4, &[1, 2, 3]).unwrap();
    assert_eq!(memory, [0, 0, 0, 0, 1, 2, 3, 0, 0, 0, 0, 0, 0, 0, 0, 0]);
    write_guest(&mut memory, 6, &[9]).unwrap();
    assert_eq!(&memory[4..8], &[1, 2, 9, 0]);
}

#[test]
fn writes_may_end_at_the_end_of_memory() {
    let mut memory = vec![0_u8; 8];
    write_guest(&mut memory, 0, &[5; 8]).unwrap();
    write_guest(&mut memory, 8, &[]).unwrap();
    assert_eq!(memory, [5; 8]);
}

#[test]
fn writes_that_do_not_fit_change_nothing() {
    let mut memory = vec![7_u8; 8];
    for (addr, len) in [(1, 8), (8, 1), (9, 0), (u64::MAX, 1), (u64::MAX, 0), (0, 9)] {
        let error = write_guest(&mut memory, addr, &vec![0; len]).unwrap_err();
        assert_eq!(error.kind(), ErrorKind::InvalidInput);
        assert!(matches!(
            error,
            VmmError::GuestDataDoesNotFit { guest_addr, size } if guest_addr == addr && size == len
        ));
        assert_eq!(
            error.message(),
            format!("guest data at {addr:#x} with size {len:#x} does not fit in guest memory")
        );
    }
    assert_eq!(memory, [7; 8]);
}
