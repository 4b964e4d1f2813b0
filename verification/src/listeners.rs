//! Listeners are known to a component by a number that their owner chose:
//! the component says which of them to notify, and the owner notifies them.

use vstd::prelude::*;

verus! {

/// A copy of a list of listeners, in the same order.
pub fn copy_listeners(listeners: &Vec<usize>) -> (out: Vec<usize>)
    ensures
        out@ == listeners@,
{
    let mut out: Vec<usize> = Vec::new();
    let mut i: usize = 0;
    while i < listeners.len()
        invariant
            i <= listeners.len(),
            out@ == listeners@.take(i as int),
        decreases listeners.len() - i,
    {
        out.push(listeners[i]);
        assert(out@ =~= listeners@.take(i + 1));
        i += 1;
    }
    assert(listeners@.take(i as int) =~= listeners@);
    out
}

} // verus!
