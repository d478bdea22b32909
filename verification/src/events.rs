use vstd::prelude::*;

verus! {

/// What the event pump hands the interface loop each turn: either input
/// from the user, or a tick on which to redraw and carry on.
pub enum Event<T> {
    Input(T),
    Continue,
}

} // verus!
