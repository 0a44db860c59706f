//! A cell that lends its value and counts the loans.
//!
//! [`BorrowCell`] lets a caller hold on to its value for a while, either
//! shared with other readers or exclusively. A counter records what is out
//! on loan, and a request that conflicts with it is refused.
use vstd::prelude::*;

verus! {

/// What a [`BorrowCell`] is at any moment: the value it holds and the count
/// of loans that are out.
///
/// `borrows` is `0` when nothing is lent, `n > 0` when `n` shared loans are
/// out, and `-1` when the one exclusive loan is out. The methods are the
/// cell's operations as functions on this state; the executable methods of
/// [`BorrowCell`] are specified in terms of them.
pub struct BorrowModel<T> {
    pub value: T,
    pub borrows: int,
}

impl<T> BorrowModel<T> {
    /// Nothing is lent.
    pub open spec fn is_unused(self) -> bool {
        self.borrows == 0
    }

    /// At least one shared loan is out.
    pub open spec fn is_shared(self) -> bool {
        self.borrows > 0
    }

    /// The exclusive loan is out.
    pub open spec fn is_exclusive(self) -> bool {
        self.borrows == -1
    }

    /// The counter has one of its three meanings.
    pub open spec fn wf(self) -> bool {
        self.is_unused() || self.is_shared() || self.is_exclusive()
    }

    /// The state of a cell that holds `value` and has lent nothing.
    pub open spec fn unused(value: T) -> Self {
        BorrowModel { value, borrows: 0 }
    }

    /// A further shared loan can be granted: the exclusive loan is not out,
    /// and the counter, which is an `isize`, has room for one more.
    pub open spec fn can_borrow_shared(self) -> bool {
        0 <= self.borrows < isize::MAX
    }

    /// The exclusive loan can be granted: nothing at all is out.
    pub open spec fn can_borrow_exclusive(self) -> bool {
        self.is_unused()
    }

    /// The state after granting one more shared loan.
    pub open spec fn borrow_shared(self) -> Self {
        BorrowModel { borrows: self.borrows + 1, ..self }
    }

    /// The state after a shared loan is returned.
    pub open spec fn release_shared(self) -> Self {
        BorrowModel { borrows: self.borrows - 1, ..self }
    }

    /// The state after granting the exclusive loan.
    pub open spec fn borrow_exclusive(self) -> Self {
        BorrowModel { borrows: -1, ..self }
    }

    /// The state after the exclusive loan is returned.
    pub open spec fn release_exclusive(self) -> Self {
        BorrowModel { borrows: 0, ..self }
    }

    /// The state after `value` is written in place of the contents.
    pub open spec fn write(self, value: T) -> Self {
        BorrowModel { value, ..self }
    }

    /// The state after putting `value` in, paired with the value that came
    /// out. The counter is as it was.
    pub open spec fn replace(self, value: T) -> (Self, T) {
        (self.write(value), self.value)
    }

    /// The states of this cell and of `other` after they trade values, in
    /// that order. Each keeps its own counter.
    pub open spec fn swap_with(self, other: Self) -> (Self, Self) {
        (self.write(other.value), other.write(self.value))
    }

    /// The state after the value is handed out and `fresh`, a default value
    /// of the type, is left in its place, paired with the value that came
    /// out.
    pub open spec fn take(self, fresh: T) -> (Self, T) {
        self.replace(fresh)
    }
}

/// The answer to a request that conflicts with the loans already out.
#[derive(Clone, Copy, Debug, PartialEq, Eq, Structural)]
pub struct BorrowConflict;

/// The token for one shared loan. The cell hands it out when it grants the
/// loan and takes it back when the loan is returned; it cannot be copied or
/// made in any other way.
#[derive(Debug)]
pub struct SharedRef {
    token: (),
}

/// The token for the exclusive loan. The cell hands it out when it grants
/// the loan and takes it back when the loan is returned; it cannot be copied
/// or made in any other way.
#[derive(Debug)]
pub struct ExclusiveRef {
    token: (),
}

/// The loan counter of a cell, which never drops below `-1`.
#[derive(Debug)]
struct LoanCounter {
    count: isize,
}

impl LoanCounter {
    #[verifier::type_invariant]
    spec fn in_range(self) -> bool {
        self.count >= -1
    }
}

/// A cell that lends its value under a run-time count of the loans.
#[derive(Debug)]
pub struct BorrowCell<T> {
    value: T,
    loans: LoanCounter,
}

impl<T> View for BorrowCell<T> {
    type V = BorrowModel<T>;

    closed spec fn view(&self) -> BorrowModel<T> {
        BorrowModel { value: self.value, borrows: self.loans.count as int }
    }
}

impl<T> BorrowCell<T> {
    /// A cell holding `value`, with nothing lent.
    pub fn new(value: T) -> (cell: Self)
        ensures
            cell@ == BorrowModel::unused(value),
    {
        BorrowCell { value, loans: LoanCounter { count: 0 } }
    }

    /// The loan counter: `0`, the number of shared loans, or `-1`.
    pub fn borrow_count(&self) -> (count: isize)
        ensures
            count == self@.borrows,
            self@.wf(),
    {
        proof {
            use_type_invariant(&self.loans);
        }
        self.loans.count
    }

    /// Grants a shared loan. The caller must know that none conflicts.
    pub fn borrow_shared(&mut self) -> (handle: SharedRef)
        requires
            old(self)@.can_borrow_shared(),
        ensures
            final(self)@ == old(self)@.borrow_shared(),
    {
        self.loans.count = self.loans.count + 1;
        SharedRef { token: () }
    }

    /// Grants the exclusive loan. The caller must know that nothing is out.
    pub fn borrow_exclusive(&mut self) -> (handle: ExclusiveRef)
        requires
            old(self)@.can_borrow_exclusive(),
        ensures
            final(self)@ == old(self)@.borrow_exclusive(),
    {
        self.loans.count = -1;
        ExclusiveRef { token: () }
    }

    /// Grants a shared loan if none conflicts, and refuses otherwise,
    /// leaving the cell as it was.
    pub fn try_borrow_shared(&mut self) -> (outcome: Result<SharedRef, BorrowConflict>)
        ensures
            outcome is Ok <==> old(self)@.can_borrow_shared(),
            outcome is Ok ==> final(self)@ == old(self)@.borrow_shared(),
            outcome is Err ==> final(self)@ == old(self)@,
    {
        if 0 <= self.loans.count && self.loans.count < isize::MAX {
            Ok(self.borrow_shared())
        } else {
            Err(BorrowConflict)
        }
    }

    /// Grants the exclusive loan if nothing is out, and refuses otherwise,
    /// leaving the cell as it was.
    pub fn try_borrow_exclusive(&mut self) -> (outcome: Result<ExclusiveRef, BorrowConflict>)
        ensures
            outcome is Ok <==> old(self)@.can_borrow_exclusive(),
            outcome is Ok ==> final(self)@ == old(self)@.borrow_exclusive(),
            outcome is Err ==> final(self)@ == old(self)@,
    {
        if self.loans.count == 0 {
            Ok(self.borrow_exclusive())
        } else {
            Err(BorrowConflict)
        }
    }

    /// Takes a shared loan back, which ends it.
    pub fn release_shared(&mut self, handle: SharedRef)
        requires
            old(self)@.is_shared(),
        ensures
            final(self)@ == old(self)@.release_shared(),
    {
        let SharedRef { token: () } = handle;
        self.loans.count = self.loans.count - 1;
    }

    /// Takes the exclusive loan back, which ends it.
    pub fn release_exclusive(&mut self, handle: ExclusiveRef)
        requires
            old(self)@.is_exclusive(),
        ensures
            final(self)@ == old(self)@.release_exclusive(),
    {
        let ExclusiveRef { token: () } = handle;
        self.loans.count = 0;
    }

    /// The value, read under a shared loan.
    pub fn shared_value(&self, handle: &SharedRef) -> (value: &T)
        requires
            self@.is_shared(),
        ensures
            *value == self@.value,
    {
        let SharedRef { token: () } = handle;
        &self.value
    }

    /// The value, open to reading and writing under the exclusive loan.
    /// Whatever the caller leaves behind the reference is what the cell
    /// holds afterwards; the counter is untouched.
    pub fn exclusive_value(&mut self, handle: &mut ExclusiveRef) -> (value: &mut T)
        requires
            old(self)@.is_exclusive(),
        ensures
            *value == old(self)@.value,
            final(self)@ == old(self)@.write(*final(value)),
    {
        let ExclusiveRef { token: () } = handle;
        &mut self.value
    }

    /// Puts `value` in and hands back what was there, under an exclusive
    /// loan held for the duration of the call.
    pub fn replace(&mut self, value: T) -> (previous: T)
        requires
            old(self)@.can_borrow_exclusive(),
        ensures
            (final(self)@, previous) == old(self)@.replace(value),
    {
        let mut handle = self.borrow_exclusive();
        let mut slot = value;
        core::mem::swap(self.exclusive_value(&mut handle), &mut slot);
        self.release_exclusive(handle);
        slot
    }

    /// Trades values with `other`, under exclusive loans on both cells held
    /// for the duration of the call.
    pub fn swap_with(&mut self, other: &mut Self)
        requires
            old(self)@.can_borrow_exclusive(),
            old(other)@.can_borrow_exclusive(),
        ensures
            (final(self)@, final(other)@) == old(self)@.swap_with(old(other)@),
    {
        let mut mine = self.borrow_exclusive();
        let mut theirs = other.borrow_exclusive();
        core::mem::swap(self.exclusive_value(&mut mine), other.exclusive_value(&mut theirs));
        other.release_exclusive(theirs);
        self.release_exclusive(mine);
    }
}

impl<T: Default> BorrowCell<T> {
    /// Hands the value out and leaves the type's default in its place,
    /// under an exclusive loan held for the duration of the call.
    pub fn take(&mut self) -> (previous: T)
        requires
            old(self)@.can_borrow_exclusive(),
        ensures
            call_ensures(T::default, (), final(self)@.value),
            (final(self)@, previous) == old(self)@.take(final(self)@.value),
    {
        self.replace(T::default())
    }
}

/// Every operation that is allowed in a state leaves the counter with one of
/// its three meanings.
pub proof fn lemma_operations_preserve_wf<T>(state: BorrowModel<T>, other: BorrowModel<T>, value: T)
    requires
        state.wf(),
        other.wf(),
    ensures
        BorrowModel::unused(value).wf(),
        state.can_borrow_shared() ==> state.borrow_shared().wf(),
        state.can_borrow_exclusive() ==> state.borrow_exclusive().wf(),
        state.is_shared() ==> state.release_shared().wf(),
        state.is_exclusive() ==> state.release_exclusive().wf(),
        state.write(value).wf(),
        state.replace(value).0.wf(),
        state.take(value).0.wf(),
        state.swap_with(other).0.wf(),
        state.swap_with(other).1.wf(),
{
}

/// With nothing lent, replacing the value is the same as taking the exclusive
/// loan, writing through it and returning it.
pub proof fn lemma_replace_is_scoped_exclusive_write<T>(state: BorrowModel<T>, value: T)
    requires
        state.can_borrow_exclusive(),
    ensures
        state.replace(value) == (
            state.borrow_exclusive().write(value).release_exclusive(),
            state.value,
        ),
{
}

/// On a cell with no exclusive loan out and room on the counter, two shared
/// loans in a row are both granted and the counter goes up by two: from 0
/// to 2 on a cell that had lent nothing. Returning both puts the cell back
/// as it was.
pub proof fn lemma_shared_loans_add_up<T>(state: BorrowModel<T>)
    requires
        0 <= state.borrows,
        state.borrows + 2 <= isize::MAX,
    ensures
        state.can_borrow_shared(),
        state.borrow_shared().can_borrow_shared(),
        state.borrow_shared().borrow_shared().borrows == state.borrows + 2,
        state.is_unused() ==> state.borrow_shared().borrow_shared().borrows == 2,
        state.borrow_shared().borrow_shared().release_shared().release_shared() == state,
{
}

/// While a shared loan is out the exclusive loan is refused. Returning the
/// shared loan puts the cell back as it was, so the exclusive loan is then
/// granted if that shared loan was the only one out.
pub proof fn lemma_shared_loan_blocks_exclusive<T>(state: BorrowModel<T>)
    requires
        state.can_borrow_shared(),
    ensures
        !state.borrow_shared().can_borrow_exclusive(),
        state.borrow_shared().release_shared() == state,
        state.is_unused() ==> state.borrow_shared().release_shared().can_borrow_exclusive(),
{
}

/// While the exclusive loan is out every further loan, shared or exclusive,
/// is refused. Returning it puts the cell back as it was, and both kinds of
/// loan are granted again.
pub proof fn lemma_exclusive_loan_blocks_all<T>(state: BorrowModel<T>)
    requires
        state.can_borrow_exclusive(),
    ensures
        !state.borrow_exclusive().can_borrow_shared(),
        !state.borrow_exclusive().can_borrow_exclusive(),
        state.borrow_exclusive().release_exclusive() == state,
        state.borrow_exclusive().release_exclusive().can_borrow_shared(),
        state.borrow_exclusive().release_exclusive().can_borrow_exclusive(),
{
}

/// Taking from a cell that was just made with `initial` is allowed, hands
/// `initial` back and leaves the cell holding the default, with nothing
/// lent. In any state with a loan out, of either kind, the exclusive access
/// that taking needs is refused.
pub proof fn lemma_take_from_new<T>(initial: T, fresh: T, lent: BorrowModel<T>)
    requires
        lent.is_shared() || lent.is_exclusive(),
    ensures
        BorrowModel::unused(initial).can_borrow_exclusive(),
        BorrowModel::unused(initial).take(fresh) == (BorrowModel::unused(fresh), initial),
        !BorrowModel::unused(fresh).borrow_shared().can_borrow_exclusive(),
        !BorrowModel::unused(fresh).borrow_exclusive().can_borrow_exclusive(),
        !lent.can_borrow_exclusive(),
{
}

/// A record with one plain field and two fields in cells. What the cells
/// hold is private to them: it is lent and changed only through the cells'
/// own operations, never by assignment.
#[derive(Debug)]
pub struct Immutable {
    pub regular: i32,
    pub special: BorrowCell<i32>,
    pub special_nocopy: BorrowCell<String>,
}

impl Default for Immutable {
    fn default() -> (record: Self)
        ensures
            record.regular == 1,
            record.special@ == BorrowModel::unused(42i32),
            record.special_nocopy@.value@ == "hi"@,
            record.special_nocopy@.is_unused(),
    {
        Immutable {
            regular: 1,
            special: BorrowCell::new(42),
            special_nocopy: BorrowCell::new("hi".to_owned()),
        }
    }
}

} // verus!
