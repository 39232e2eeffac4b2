use vstd::prelude::*;

verus! {

/// The counter after one increment: it wraps around at `usize::MAX`.
pub open spec fn bumped(c: usize) -> usize {
    if c == usize::MAX {
        0
    } else {
        (c + 1) as usize
    }
}

/// A counter beside a message that never changes.
pub struct SharedData {
    counter: usize,
    message: String,
}

impl SharedData {
    pub closed spec fn counter_spec(&self) -> usize {
        self.counter
    }

    pub closed spec fn message_spec(&self) -> Seq<char> {
        self.message@
    }

    /// A counter at 0 beside a copy of `message`.
    pub fn new(message: &str) -> (r: Self)
        ensures
            r.counter_spec() == 0,
            r.message_spec() == message@,
    {
        SharedData { counter: 0, message: message.to_owned() }
    }

    /// Adds one to the counter, wrapping around at `usize::MAX`.
    pub fn increment_counter(&mut self)
        ensures
            final(self).counter_spec() == bumped(old(self).counter_spec()),
            final(self).message_spec() == old(self).message_spec(),
    {
        self.counter = if self.counter == usize::MAX {
            0
        } else {
            self.counter + 1
        };
    }

    pub fn get_counter(&self) -> (r: usize)
        ensures
            r == self.counter_spec(),
    {
        self.counter
    }

    pub fn get_message(&self) -> (r: &str)
        ensures
            r@ == self.message_spec(),
    {
        self.message.as_str()
    }
}

/// A counter, a replaceable message, and a fixed preset string.
pub struct ThreadSafeData {
    message: String,
    counter: usize,
    pre: String,
}

impl ThreadSafeData {
    pub closed spec fn counter_spec(&self) -> usize {
        self.counter
    }

    pub closed spec fn message_spec(&self) -> Seq<char> {
        self.message@
    }

    pub closed spec fn pre_spec(&self) -> Seq<char> {
        self.pre@
    }

    /// A counter at 0, the message `message`, and the preset `"AtomicPtr>>>"`.
    pub fn new(message: String) -> (r: ThreadSafeData)
        ensures
            r.counter_spec() == 0,
            r.message_spec() == message@,
            r.pre_spec() == "AtomicPtr>>>"@,
    {
        ThreadSafeData { message, counter: 0, pre: "AtomicPtr>>>".to_owned() }
    }

    /// Adds one to the counter, wrapping around at `usize::MAX`.
    pub fn increment_counter(&mut self)
        ensures
            final(self).counter_spec() == bumped(old(self).counter_spec()),
            final(self).message_spec() == old(self).message_spec(),
            final(self).pre_spec() == old(self).pre_spec(),
    {
        self.counter = if self.counter == usize::MAX {
            0
        } else {
            self.counter + 1
        };
    }

    /// Replaces the message by a copy of `new_message`.
    pub fn update_message(&mut self, new_message: &str)
        ensures
            final(self).message_spec() == new_message@,
            final(self).counter_spec() == old(self).counter_spec(),
            final(self).pre_spec() == old(self).pre_spec(),
    {
        self.message = new_message.to_owned();
    }

    pub fn get_message(&self) -> (r: String)
        ensures
            r@ == self.message_spec(),
    {
        self.message.clone()
    }

    pub fn get_counter(&self) -> (r: usize)
        ensures
            r == self.counter_spec(),
    {
        self.counter
    }

    /// A copy of the preset string.
    pub fn get_pre(&self) -> (r: String)
        ensures
            r@ == self.pre_spec(),
    {
        self.pre.clone()
    }
}

} // verus!
