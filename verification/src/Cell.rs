//! A cell that is read and written by value.
//!
//! [`ValueCell`] holds one value and only ever moves whole values in and
//! out: no operation lends a reference to the contents, so there is nothing
//! to track at run time and nothing that can fail.
use vstd::prelude::*;

verus! {

/// What a [`ValueCell`] holds: exactly one value, at all times.
///
/// The methods are the cell's operations as functions on this value; the
/// executable methods of [`ValueCell`] are specified in terms of them.
pub struct CellModel<T> {
    pub value: T,
}

impl<T> CellModel<T> {
    /// The contents after overwriting them with `value`.
    pub open spec fn set(self, value: T) -> Self {
        CellModel { value }
    }

    /// The value a read yields.
    pub open spec fn get(self) -> T {
        self.value
    }

    /// The contents after putting `value` in, paired with the value that
    /// came out.
    pub open spec fn replace(self, value: T) -> (Self, T) {
        (CellModel { value }, self.value)
    }

    /// The contents of this cell and of `other` after they trade values,
    /// in that order.
    pub open spec fn swap_with(self, other: Self) -> (Self, Self) {
        (other, self)
    }
}

/// A single-owner cell: its value is replaced wholesale and is never lent.
#[derive(Debug)]
pub struct ValueCell<T> {
    value: T,
}

impl<T> View for ValueCell<T> {
    type V = CellModel<T>;

    closed spec fn view(&self) -> CellModel<T> {
        CellModel { value: self.value }
    }
}

impl<T> ValueCell<T> {
    /// A cell holding `value`.
    pub fn new(value: T) -> (cell: Self)
        ensures
            cell@ == (CellModel { value }),
    {
        ValueCell { value }
    }

    /// Overwrites the contents, dropping what was there.
    pub fn set(&mut self, value: T)
        ensures
            final(self)@ == old(self)@.set(value),
    {
        self.value = value;
    }

    /// Puts `value` in and hands back what was there.
    pub fn replace(&mut self, value: T) -> (previous: T)
        ensures
            (final(self)@, previous) == old(self)@.replace(value),
    {
        let mut slot = value;
        core::mem::swap(&mut self.value, &mut slot);
        slot
    }

    /// Trades contents with `other`.
    pub fn swap_with(&mut self, other: &mut Self)
        ensures
            (final(self)@, final(other)@) == old(self)@.swap_with(old(other)@),
    {
        core::mem::swap(&mut self.value, &mut other.value);
    }
}

impl<T: Copy> ValueCell<T> {
    /// A copy of the contents. Offered only where copying is a plain
    /// duplication of bits, so that the cell never has to give its value up.
    pub fn get(&self) -> (value: T)
        ensures
            value == self@.get(),
    {
        self.value
    }
}

/// Writing `first` and then replacing it with `second` hands `first` back and
/// leaves the cell holding `second`, whatever it held before.
pub proof fn lemma_set_then_replace<T>(before: CellModel<T>, first: T, second: T)
    ensures
        before.set(first).replace(second) == ((CellModel { value: second }), first),
{
}

/// A read yields the argument of the last `set` or `replace`.
pub proof fn lemma_get_yields_last_written<T>(before: CellModel<T>, written: T)
    ensures
        before.set(written).get() == written,
        before.replace(written).0.get() == written,
{
}

/// A record with one plain field and two fields in cells. What the cells
/// hold is private to them: it changes only through the cells' own
/// operations, never by assignment.
#[derive(Debug)]
pub struct Immutable {
    pub regular: i32,
    pub special: ValueCell<i32>,
    pub special_nocopy: ValueCell<String>,
}

impl Default for Immutable {
    fn default() -> (record: Self)
        ensures
            record.regular == 1,
            record.special@.value == 42,
            record.special_nocopy@.value@ == "hi"@,
    {
        Immutable {
            regular: 1,
            special: ValueCell::new(42),
            special_nocopy: ValueCell::new("hi".to_owned()),
        }
    }
}

} // verus!
