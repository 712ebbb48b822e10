//! Values that a window owns or shares with the render callback of its drawing area.

use std::cell::RefCell;
use std::ops::Deref;
use std::rc::Rc;
use vstd::prelude::*;

verus! {

/// `std::cell::RefCell`. What a cell holds is not modelled: it changes behind shared
/// references.
#[verifier::external_type_specification]
#[verifier::external_body]
#[verifier::reject_recursive_types(T)]
pub struct ExRefCell<T: ?Sized>(std::cell::RefCell<T>);

/// `std::cell::RefCell::new` makes a cell that starts out holding `value`. Nothing is
/// claimed of the cell; contracts say of a new cell only which call made it.
pub assume_specification<T>[ RefCell::<T>::new ](value: T) -> (cell: RefCell<T>);

/// Calls `make` on `t`, so that the result is known to come from that call.
fn made_by<T, U, F: FnOnce(T) -> U>(make: F, t: T) -> (u: U)
    requires
        call_requires(make, (t,)),
    ensures
        call_ensures(make, (t,), u),
{
    make(t)
}

/// A value that may be shared.
pub enum MaybeRc<T> {
    Actual(T),
    Rc(Rc<T>),
}

impl<T> MaybeRc<T> {
    /// The value, shared or not.
    pub open spec fn value(&self) -> T {
        match *self {
            MaybeRc::Actual(t) => t,
            MaybeRc::Rc(t) => *t,
        }
    }

    /// A value that is not shared.
    pub fn new(t: T) -> (res: Self)
        ensures
            res == MaybeRc::Actual(t),
    {
        Self::Actual(t)
    }
}

impl<T> AsRef<T> for MaybeRc<T> {
    fn as_ref(&self) -> (res: &T)
        ensures
            *res == self.value(),
    {
        match self {
            Self::Actual(t) => t,
            Self::Rc(t) => t,
        }
    }
}

impl<T> Deref for MaybeRc<T> {
    type Target = T;

    fn deref(&self) -> (res: &T)
        ensures
            *res == self.value(),
    {
        match self {
            Self::Actual(v) => v,
            Self::Rc(r) => &**r,
        }
    }
}

impl<T> std::borrow::Borrow<T> for MaybeRc<T> {
    fn borrow(&self) -> &T
        returns
            &self.value(),
    {
        match self {
            Self::Actual(v) => v,
            Self::Rc(r) => &**r,
        }
    }
}

/// A cell that may be shared.
#[verifier::reject_recursive_types(T)]
pub enum MaybeRcCell<T> {
    Actual(RefCell<T>),
    RcCell(Rc<RefCell<T>>),
}

impl<T> MaybeRcCell<T> {
    /// The cell, shared or not.
    pub open spec fn cell(&self) -> RefCell<T> {
        match *self {
            MaybeRcCell::Actual(v) => v,
            MaybeRcCell::RcCell(r) => *r,
        }
    }

    /// Whether this is a cell of its own that was made with `t` in it.
    pub open spec fn is_made_with(&self, t: T) -> bool {
        match *self {
            MaybeRcCell::Actual(v) => call_ensures(RefCell::<T>::new, (t,), v),
            MaybeRcCell::RcCell(_) => false,
        }
    }

    /// A cell that is not shared and starts out holding `t`.
    pub fn new(t: T) -> (res: Self)
        ensures
            res.is_made_with(t),
    {
        Self::Actual(made_by(RefCell::<T>::new, t))
    }
}

impl<T> Deref for MaybeRcCell<T> {
    type Target = RefCell<T>;

    fn deref(&self) -> (res: &RefCell<T>)
        ensures
            *res == self.cell(),
    {
        match self {
            Self::Actual(v) => v,
            Self::RcCell(r) => &**r,
        }
    }
}

} // verus!
