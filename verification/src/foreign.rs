//! The outside items that the change-detection logic reads: the reactive
//! `Signal` and `Memo` of `auralis_signal`.  Each item here is believed, not
//! proved.
use vstd::prelude::*;

verus! {

/// `auralis_signal::Signal`: a reference-counted cell with a version
/// counter.  Opaque here.  A handle is a clone of an `Rc` allocation that
/// holds the value, the version and the subscribers, and every clone of a
/// signal shares that allocation; so a signal's value, as the verifier sees
/// it, stands for that allocation: two handles are equal exactly when they
/// are clones of one signal.
#[verifier::external_type_specification]
#[verifier::external_body]
#[verifier::reject_recursive_types(T)]
pub struct ExSignal<T>(auralis_signal::Signal<T>);

/// `auralis_signal::Memo`: a lazily recomputed derived value that records
/// which signals its compute function read.  Opaque here.
#[verifier::external_type_specification]
#[verifier::external_body]
#[verifier::reject_recursive_types(T)]
pub struct ExMemo<T>(auralis_signal::Memo<T>);

/// Calls `Signal::ptr_eq`, which is `Rc::ptr_eq` on the two handles'
/// shared state: true exactly when they are clones of one allocation, which
/// is what equality of two signals means here (see [`ExSignal`]).  It reads
/// no cell and cannot panic.
#[verifier::external_body]
pub(crate) fn signals_shared<T>(a: &auralis_signal::Signal<T>, b: &auralis_signal::Signal<T>) -> (r: bool)
    ensures
        r == (*a == *b),
{
    a.ptr_eq(b)
}

/// Calls `Memo::is_dirty`, which reads the flag that a change of any
/// tracked signal sets and a recomputation clears.  Nothing is promised of
/// the answer: the flag lives in a cell shared with those signals.
#[verifier::external_body]
pub(crate) fn memo_is_dirty(tracker: &auralis_signal::Memo<()>) -> bool {
    tracker.is_dirty()
}

} // verus!
