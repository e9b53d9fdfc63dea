use tlhelp32::memory::read_outcome;
use tlhelp32::OsError;

#[test]
fn empty_read_succeeds_with_zero_bytes() {
    assert_eq!(read_outcome(true, 0, 0), Ok(0));
}

#[test]
fn short_read_is_a_success() {
    assert_eq!(read_outcome(true, 12, 0), Ok(12));
}

#[test]
fn failed_copy_gives_the_last_error() {
    assert_eq!(read_outcome(false, 0, 299), Err(OsError { code: 299 }));
    assert_eq!(OsError::from_raw_os_error(5).raw_os_error(), 5);
}
