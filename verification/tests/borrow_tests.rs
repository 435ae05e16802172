use ownership_basics::borrow::{BorrowError, RecordCell};
use ownership_basics::user::build_user;

fn sample_cell() -> RecordCell {
    RecordCell::new(build_user(
        String::from("someone@example.com"),
        String::from("someusername123"),
    ))
}

#[test]
fn second_exclusive_access_is_rejected() {
    let mut cell = sample_cell();
    assert!(cell.try_borrow_exclusive().is_ok());
    assert_eq!(cell.try_borrow_exclusive(), Err(BorrowError::ExclusiveHeld));
}

#[test]
fn shared_access_is_rejected_while_exclusive_is_live() {
    let mut cell = sample_cell();
    assert!(cell.try_borrow_exclusive().is_ok());
    assert_eq!(cell.try_borrow_shared(), Err(BorrowError::ExclusiveHeld));
}

#[test]
fn exclusive_access_is_rejected_while_shared_is_live() {
    let mut cell = sample_cell();
    assert!(cell.try_borrow_shared().is_ok());
    assert_eq!(cell.try_borrow_exclusive(), Err(BorrowError::SharedHeld));
}

#[test]
fn shared_accesses_coexist() {
    let mut cell = sample_cell();
    assert!(cell.try_borrow_shared().is_ok());
    assert!(cell.try_borrow_shared().is_ok());
    assert!(cell.try_borrow_shared().is_ok());
    assert_eq!(cell.read_email(), "someone@example.com");
    assert_eq!(cell.read_username(), "someusername123");
}

#[test]
fn releasing_exclusive_allows_shared_again() {
    let mut cell = sample_cell();
    assert!(cell.try_borrow_exclusive().is_ok());
    cell.release_exclusive();
    assert!(cell.try_borrow_shared().is_ok());
}

#[test]
fn releasing_all_shared_allows_exclusive_again() {
    let mut cell = sample_cell();
    assert!(cell.try_borrow_shared().is_ok());
    assert!(cell.try_borrow_shared().is_ok());
    cell.release_shared();
    assert_eq!(cell.try_borrow_exclusive(), Err(BorrowError::SharedHeld));
    cell.release_shared();
    assert!(cell.try_borrow_exclusive().is_ok());
}

#[test]
fn exclusive_access_may_write_and_read_back() {
    let mut cell = sample_cell();
    assert!(cell.try_borrow_exclusive().is_ok());
    cell.write_email(String::from("anotheremail@example.com"));
    assert_eq!(cell.read_email(), "anotheremail@example.com");
    assert_eq!(cell.read_username(), "someusername123");
}
