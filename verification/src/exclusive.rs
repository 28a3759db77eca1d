//! The exclusive-reference cell: publishes an address for mutable use.

use vstd::prelude::*;

use crate::slot::{after_clear, after_init, after_set, read_of, SlotState};
use core::marker::PhantomData;

verus! {

/// A cell that stores the numeric address of one **mutable** reference.
///
/// Same slot discipline as [`crate::GlobalRef`], with a stronger caller
/// contract: while an address is registered here, no other live alias to the
/// referenced value — read or write — may exist anywhere in the program,
/// because code holding the address obtains write access to the value.  The
/// cell synchronizes only the address lookup itself, never concurrent
/// mutation of the referenced value; coordinating that is entirely the
/// caller's responsibility.
#[derive(Debug)]
pub struct GlobalMut<T> {
    slot: SlotState,
    _marker: PhantomData<T>,
}

impl<T> View for GlobalMut<T> {
    type V = SlotState;

    closed spec fn view(&self) -> SlotState {
        self.slot
    }
}

impl<T> GlobalMut<T> {
    /// Create a new instance.  The slot starts uninitialized and reads as
    /// absent until an address is registered.
    pub fn new() -> (r: Self)
        ensures
            r@ == SlotState::Uninitialized,
    {
        GlobalMut { slot: SlotState::Uninitialized, _marker: PhantomData }
    }

    /// Set the slot up on its first mutating use: an uninitialized slot
    /// becomes empty, any other slot is left as it is.
    fn init(&mut self)
        ensures
            final(self)@ == after_init(old(self)@),
    {
        if matches!(self.slot, SlotState::Uninitialized) {
            self.slot = SlotState::Empty;
        }
    }

    /// Register `addr` so that other code can obtain it through this cell.
    /// It is recommended to use `with()` instead.  **Be sure to call
    /// `clear()` after the registration is used.**
    ///
    /// Overwrites any prior registration without error: the last write wins.
    pub fn set(&mut self, addr: usize)
        ensures
            final(self)@ == after_set(old(self)@, addr),
    {
        self.init();
        self.slot = SlotState::Registered(addr);
    }

    /// Clear the registered address.  Idempotent, and legal in every state:
    /// the slot is empty afterwards, whatever it held before.
    pub fn clear(&mut self)
        ensures
            final(self)@ == after_clear(old(self)@),
    {
        self.init();
        self.slot = SlotState::Empty;
    }

    /// Register `addr`, run `f`, then clear the slot, handing back `f`'s
    /// result.  The registration lasts exactly for the execution of `f`: on
    /// return the cell is always in the `Empty` state.
    pub fn with<F: FnOnce() -> R, R>(&mut self, addr: usize, f: F) -> (r: R)
        requires
            call_requires(f, ()),
        ensures
            final(self)@ == after_clear(after_set(old(self)@, addr)),
            call_ensures(f, (), r),
    {
        self.set(addr);
        let res = f();
        self.clear();
        res
    }

    /// Get the registered address for read-only use.  May only be called
    /// while an address is registered; call sites that cannot guarantee a
    /// prior `set()` or `with()` use `try_get()` and treat absence
    /// themselves.
    pub fn get(&self) -> (r: usize)
        requires
            read_of(self@) is Some,
        ensures
            Some(r) == read_of(self@),
    {
        match self.slot {
            SlotState::Registered(addr) => addr,
            _ => unreached(),
        }
    }

    /// Get the registered address for read-only use, or `None` if `set()`
    /// or `with()` has not been called before (or the slot was cleared
    /// since).
    pub fn try_get(&self) -> (r: Option<usize>)
        ensures
            r == read_of(self@),
    {
        match self.slot {
            SlotState::Registered(addr) => Some(addr),
            _ => None,
        }
    }

    /// Get the registered address for mutable use: the same address that
    /// `get()` observes, through which the holder may mutate the referenced
    /// value in place.  May only be called while an address is registered.
    pub fn get_mut(&self) -> (r: usize)
        requires
            read_of(self@) is Some,
        ensures
            Some(r) == read_of(self@),
    {
        match self.slot {
            SlotState::Registered(addr) => addr,
            _ => unreached(),
        }
    }

    /// Get the registered address for mutable use, or `None` if `set()` or
    /// `with()` has not been called before (or the slot was cleared since).
    pub fn try_get_mut(&self) -> (r: Option<usize>)
        ensures
            r == read_of(self@),
    {
        match self.slot {
            SlotState::Registered(addr) => Some(addr),
            _ => None,
        }
    }

    /// The current state of the slot.
    pub fn state(&self) -> (r: SlotState)
        ensures
            r == self@,
    {
        self.slot
    }
}

impl<T> Default for GlobalMut<T> {
    /// A default cell is a new one: uninitialized, reading as absent.
    fn default() -> (r: Self)
        ensures
            r@ == SlotState::Uninitialized,
    {
        GlobalMut::new()
    }
}

} // verus!
