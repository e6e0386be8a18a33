use vstd::prelude::*;

verus! {

/// The click counter: starts at zero, and each increment adds exactly one. Taking it
/// by `&mut` for an increment, a caller that shares it between requests has to
/// serialise the increments, and then none is lost.
pub struct Counter {
    value: u64,
}

impl View for Counter {
    type V = u64;

    closed spec fn view(&self) -> u64 {
        self.value
    }
}

impl Counter {
    /// A fresh counter at zero.
    pub fn new() -> (r: Counter)
        ensures
            r@ == 0,
    {
        Counter { value: 0 }
    }

    /// The value now.
    pub fn current_value(&self) -> (r: u64)
        ensures
            r == self@,
    {
        self.value
    }

    /// Adds one and returns the new value.
    pub fn increment(&mut self) -> (r: u64)
        requires
            old(self)@ < u64::MAX,
        ensures
            final(self)@ == old(self)@ + 1,
            r == final(self)@,
    {
        self.value = self.value + 1;
        self.value
    }
}

/// Whether `values` are the values a counter takes from a fresh start, one increment
/// after another.
pub open spec fn increments_from_zero(values: Seq<u64>) -> bool {
    &&& values.len() >= 1
    &&& values[0] == 0
    &&& forall|i: int| 0 <= i < values.len() - 1 ==> #[trigger] values[i + 1] == values[i] + 1
}

/// After `n` increments from a fresh counter the value is exactly `n`: no increment is lost.
pub proof fn lemma_increments_add_up(values: Seq<u64>)
    requires
        increments_from_zero(values),
    ensures
        values.last() == values.len() - 1,
    decreases values.len(),
{
    if values.len() > 1 {
        let prefix = values.drop_last();
        assert(increments_from_zero(prefix)) by {
            assert forall|i: int| 0 <= i < prefix.len() - 1 implies #[trigger] prefix[i + 1] == prefix[i] + 1 by {
                assert(values[i + 1] == values[i] + 1);
            }
        }
        lemma_increments_add_up(prefix);
        assert(values[values.len() - 1] == values[values.len() - 2] + 1);
    }
}

} // verus!
