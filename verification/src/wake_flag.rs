use vstd::prelude::*;

verus! {

/// The state behind a test waker: whether it has been woken.
pub struct TestWakerData {
    woken: bool,
}

impl View for TestWakerData {
    type V = bool;

    open spec fn view(&self) -> bool {
        self.spec_value()
    }
}

impl TestWakerData {
    /// Whether the waker has been woken (or the flag was last set to `true`).
    pub closed spec fn spec_value(self) -> bool {
        self.woken
    }

    /// The flag after `set_value(value)`.
    pub closed spec fn spec_set(self, value: bool) -> Self {
        TestWakerData { woken: value }
    }

    /// The flag after a wake-up.
    pub open spec fn spec_wake(self) -> Self {
        self.spec_set(true)
    }

    /// A flag that has not been woken.
    pub fn new() -> (data: Self)
        ensures
            data@ == false,
    {
        TestWakerData { woken: false }
    }

    /// Reads the flag.
    pub fn value(&self) -> (value: bool)
        ensures
            value == self@,
    {
        self.woken
    }

    /// Overwrites the flag with `value`.
    pub fn set_value(&mut self, value: bool)
        ensures
            *final(self) == old(self).spec_set(value),
            final(self)@ == value,
    {
        self.woken = value;
    }

    /// Records a wake-up: the flag becomes `true`, whatever it was.
    pub fn wake(&mut self)
        ensures
            *final(self) == old(self).spec_wake(),
            final(self)@ == true,
    {
        self.set_value(true);
    }
}

/// A read gives back what the last write wrote.
pub proof fn lemma_value_after_set(data: TestWakerData, value: bool)
    ensures
        data.spec_set(value)@ == value,
{
}

/// A later write hides an earlier one: writing `a` then `b` is writing `b`.
pub proof fn lemma_set_overwrites(data: TestWakerData, a: bool, b: bool)
    ensures
        data.spec_set(a).spec_set(b) == data.spec_set(b),
{
}

/// Waking twice is waking once, and a woken flag reads `true`.
pub proof fn lemma_wake_idempotent(data: TestWakerData)
    ensures
        data.spec_wake().spec_wake() == data.spec_wake(),
        data.spec_wake()@ == true,
{
}

/// The flag depends on its last write alone, not on what it held before.
pub proof fn lemma_set_forgets_history(d1: TestWakerData, d2: TestWakerData, value: bool)
    ensures
        d1.spec_set(value) == d2.spec_set(value),
{
}

} // verus!
