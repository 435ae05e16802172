//! A run-time access discipline for a single record: any number of
//! shared (read-only) accesses may be live at once, an exclusive
//! (read-write) access excludes everything else, and a request that
//! would break the rule is rejected with an error instead of being
//! allowed through.

use vstd::prelude::*;

use crate::user::{with_email, User, UserView};

verus! {

/// Why an access request was rejected.
#[derive(Debug, Clone, Copy, PartialEq, Eq, Structural)]
pub enum BorrowError {
    /// An exclusive access is live.
    ExclusiveHeld,
    /// At least one shared access is live.
    SharedHeld,
}

/// A cell that owns one [`User`] record and counts the accesses that
/// are currently checked out of it.
pub struct RecordCell {
    record: User,
    shared_count: u64,
    exclusive: bool,
}

impl RecordCell {
    /// The number of shared accesses currently live.
    pub closed spec fn shared(&self) -> u64 {
        self.shared_count
    }

    /// Whether an exclusive access is currently live.
    pub closed spec fn is_exclusive(&self) -> bool {
        self.exclusive
    }

    /// The record held by the cell.
    pub closed spec fn record_view(&self) -> UserView {
        self.record@
    }

    /// Well-formedness: an exclusive access never coexists with a
    /// shared one.
    pub open spec fn inv(&self) -> bool {
        self.is_exclusive() ==> self.shared() == 0
    }

    /// Takes ownership of a record; no access is live at the start.
    pub fn new(record: User) -> (cell: RecordCell)
        ensures
            cell.inv(),
            cell.shared() == 0,
            !cell.is_exclusive(),
            cell.record_view() == record@,
    {
        RecordCell { record, shared_count: 0, exclusive: false }
    }

    /// Requests one more shared access. Granted exactly when no
    /// exclusive access is live; the record itself never changes.
    pub fn try_borrow_shared(&mut self) -> (r: Result<(), BorrowError>)
        requires
            old(self).inv(),
            old(self).shared() < u64::MAX,
        ensures
            final(self).inv(),
            final(self).record_view() == old(self).record_view(),
            r is Ok <==> !old(self).is_exclusive(),
            r is Ok ==> final(self).shared() == old(self).shared() + 1
                && !final(self).is_exclusive(),
            r is Err ==> *final(self) == *old(self)
                && r == Err::<(), BorrowError>(BorrowError::ExclusiveHeld),
    {
        if self.exclusive {
            Err(BorrowError::ExclusiveHeld)
        } else {
            self.shared_count = self.shared_count + 1;
            Ok(())
        }
    }

    /// Requests the exclusive access. Granted exactly when no access
    /// of either kind is live; the record itself never changes.
    pub fn try_borrow_exclusive(&mut self) -> (r: Result<(), BorrowError>)
        requires
            old(self).inv(),
        ensures
            final(self).inv(),
            final(self).record_view() == old(self).record_view(),
            r is Ok <==> !old(self).is_exclusive() && old(self).shared() == 0,
            r is Ok ==> final(self).is_exclusive() && final(self).shared() == 0,
            r is Err ==> *final(self) == *old(self),
            old(self).is_exclusive() ==> r == Err::<(), BorrowError>(BorrowError::ExclusiveHeld),
            !old(self).is_exclusive() && old(self).shared() > 0
                ==> r == Err::<(), BorrowError>(BorrowError::SharedHeld),
    {
        if self.exclusive {
            Err(BorrowError::ExclusiveHeld)
        } else if self.shared_count > 0 {
            Err(BorrowError::SharedHeld)
        } else {
            self.exclusive = true;
            Ok(())
        }
    }

    /// Returns one shared access to the cell.
    pub fn release_shared(&mut self)
        requires
            old(self).inv(),
            old(self).shared() > 0,
        ensures
            final(self).inv(),
            final(self).shared() == old(self).shared() - 1,
            final(self).is_exclusive() == old(self).is_exclusive(),
            final(self).record_view() == old(self).record_view(),
    {
        self.shared_count = self.shared_count - 1;
    }

    /// Returns the exclusive access to the cell.
    pub fn release_exclusive(&mut self)
        requires
            old(self).inv(),
            old(self).is_exclusive(),
        ensures
            final(self).inv(),
            final(self).shared() == 0,
            !final(self).is_exclusive(),
            final(self).record_view() == old(self).record_view(),
    {
        self.exclusive = false;
    }

    /// Reads the `email` field; some access must be live.
    pub fn read_email(&self) -> (email: &String)
        requires
            self.shared() > 0 || self.is_exclusive(),
        ensures
            email@ == self.record_view().email,
    {
        &self.record.email
    }

    /// Reads the `username` field; some access must be live.
    pub fn read_username(&self) -> (username: &String)
        requires
            self.shared() > 0 || self.is_exclusive(),
        ensures
            username@ == self.record_view().username,
    {
        &self.record.username
    }

    /// Overwrites the record's `email` field; only the exclusive
    /// access may write.
    pub fn write_email(&mut self, v: String)
        requires
            old(self).inv(),
            old(self).is_exclusive(),
        ensures
            final(self).inv(),
            final(self).record_view() == with_email(old(self).record_view(), v@),
            final(self).shared() == old(self).shared(),
            final(self).is_exclusive(),
    {
        self.record.set_email(v);
    }
}

} // verus!
