//! The state machine of a single address slot.
//!
//! A slot is in one of three states: never touched, explicitly empty, or
//! holding the numeric address of a registered value.  Registration and
//! clearing are the only transitions; reading never changes the state.

use vstd::prelude::*;

verus! {

/// The observable state of a cell's slot.
///
/// A freshly declared cell is `Uninitialized`; the first mutating operation
/// moves it to `Empty` (or directly to `Registered`), and from then on the
/// slot cycles between `Empty` and `Registered` for the life of the cell.
#[derive(Clone, Copy, Debug, PartialEq, Eq, Structural)]
pub enum SlotState {
    /// No operation has touched the slot yet.
    Uninitialized,
    /// The slot was set up but holds no registration.
    Empty,
    /// The slot holds the address of a registered value.
    Registered(usize),
}

/// The lazy first-use transition: the first mutating access of a cell sets
/// its slot up, moving `Uninitialized` to `Empty`; a slot already set up is
/// left as it is.
pub open spec fn after_init(s: SlotState) -> SlotState {
    match s {
        SlotState::Uninitialized => SlotState::Empty,
        _ => s,
    }
}

/// The state after registering `addr`: the slot holds `addr`, whatever it
/// held before.  Registration never fails and never inspects the prior state.
pub open spec fn after_set(s: SlotState, addr: usize) -> SlotState {
    SlotState::Registered(addr)
}

/// The state after clearing: the slot is empty, whatever it held before.
pub open spec fn after_clear(s: SlotState) -> SlotState {
    SlotState::Empty
}

/// What a read observes: the registered address, or absence when the slot
/// is uninitialized or empty.
pub open spec fn read_of(s: SlotState) -> Option<usize> {
    match s {
        SlotState::Registered(addr) => Some(addr),
        _ => None,
    }
}

/// Registering an address and then reading observes exactly that address,
/// whatever the slot held before.
pub proof fn lemma_set_then_read(s: SlotState, addr: usize)
    ensures
        read_of(after_set(s, addr)) == Some(addr),
{
}

/// After a clear, a read observes absence, unconditionally of the prior
/// state.
pub proof fn lemma_clear_then_read(s: SlotState)
    ensures
        read_of(after_clear(s)) is None,
{
}

/// A read of a never-registered slot observes absence.
pub proof fn lemma_fresh_reads_none()
    ensures
        read_of(SlotState::Uninitialized) is None,
{
}

/// A register followed by a clear leaves the slot empty, whatever it held
/// before: a scoped registration always ends in the `Empty` state.
pub proof fn lemma_scoped_leaves_empty(s: SlotState, addr: usize)
    ensures
        after_clear(after_set(s, addr)) == SlotState::Empty,
{
}

/// Setting a slot up lazily is unobservable through the mutating
/// operations: registering or clearing after the lazy first-use transition
/// ends in the same state as registering or clearing directly.
pub proof fn lemma_lazy_init_is_unobservable(s: SlotState, addr: usize)
    ensures
        after_set(after_init(s), addr) == after_set(s, addr),
        after_clear(after_init(s)) == after_clear(s),
{
}

/// Registering twice without an intervening clear is legal, and the second
/// address wins: the double registration is indistinguishable from a single
/// registration of the second address.
pub proof fn lemma_double_set_last_wins(s: SlotState, first: usize, second: usize)
    ensures
        after_set(after_set(s, first), second) == after_set(s, second),
        read_of(after_set(after_set(s, first), second)) == Some(second),
{
}

} // verus!
